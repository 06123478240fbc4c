//! Runtime metadata: what a capsule's processes are told about the capsule.

use crate::capsule::{domain_of, Capsule, CapsuleView};
use crate::text::{conjoin, decimal, decimal_text, lemma_ascii_lt_at, text_lt};
use crate::text_map::{ascending, lemma_same_keys, TextMap};
use vstd::utf8::is_ascii_chars;
use vstd::prelude::*;

verus! {

/// The environment of a capsule: its id, slug, domain and workspace.
pub open spec fn runtime_env_of(capsule: CapsuleView) -> Map<Seq<char>, Seq<char>> {
    Map::<Seq<char>, Seq<char>>::empty().insert("NEXUM_CAPSULE_ID"@, capsule.capsule_id).insert(
        "NEXUM_CAPSULE_SLUG"@,
        capsule.slug,
    ).insert("NEXUM_CAPSULE_DOMAIN"@, domain_of(capsule.slug)).insert(
        "NEXUM_CAPSULE_WORKSPACE"@,
        decimal(capsule.workspace as nat),
    )
}

/// The label of a capsule's terminal process.
pub open spec fn process_label_of(capsule_id: Seq<char>) -> Seq<char> {
    "nexum-terminal-"@ + capsule_id
}

/// The values of a map of strings, as sequences of characters.
pub open spec fn text_values(map: Map<Seq<char>, String>) -> Map<Seq<char>, Seq<char>> {
    map.map_values(|value: String| value@)
}

/// The names of the environment variables, in ascending order.
pub open spec fn runtime_env_keys() -> Seq<Seq<char>> {
    seq![
        "NEXUM_CAPSULE_DOMAIN"@,
        "NEXUM_CAPSULE_ID"@,
        "NEXUM_CAPSULE_SLUG"@,
        "NEXUM_CAPSULE_WORKSPACE"@,
    ]
}

/// The four names are in ascending order as listed.
pub proof fn lemma_runtime_env_keys_ascending()
    ensures
        ascending(runtime_env_keys()),
{
    reveal_strlit("NEXUM_CAPSULE_DOMAIN");
    reveal_strlit("NEXUM_CAPSULE_ID");
    reveal_strlit("NEXUM_CAPSULE_SLUG");
    reveal_strlit("NEXUM_CAPSULE_WORKSPACE");
    let d = "NEXUM_CAPSULE_DOMAIN"@;
    let i = "NEXUM_CAPSULE_ID"@;
    let s = "NEXUM_CAPSULE_SLUG"@;
    let w = "NEXUM_CAPSULE_WORKSPACE"@;
    assert(is_ascii_chars(d));
    assert(is_ascii_chars(i));
    assert(is_ascii_chars(s));
    assert(is_ascii_chars(w));
    lemma_ascii_lt_at(d, i, 14);
    lemma_ascii_lt_at(i, s, 14);
    lemma_ascii_lt_at(s, w, 14);
    crate::text::lemma_text_lt_transitive(d, i, s);
    crate::text::lemma_text_lt_transitive(d, s, w);
    crate::text::lemma_text_lt_transitive(i, s, w);
    let keys = runtime_env_keys();
    assert forall|a: int, b: int| 0 <= a < b < keys.len() implies text_lt(
        #[trigger] keys[a],
        #[trigger] keys[b],
    ) by {}
}

/// The environment variables that a capsule's processes get, by name.
pub fn capsule_runtime_env(capsule: &Capsule) -> (env: TextMap<String>)
    ensures
        env.wf(),
        text_values(env@) == runtime_env_of(capsule@),
        env.ordered_keys() == runtime_env_keys(),
{
    let mut env: TextMap<String> = TextMap::new();
    let _ = env.insert(String::from_str("NEXUM_CAPSULE_ID"), capsule.capsule_id.clone());
    let _ = env.insert(String::from_str("NEXUM_CAPSULE_SLUG"), capsule.slug.clone());
    let _ = env.insert(String::from_str("NEXUM_CAPSULE_DOMAIN"), capsule.domain());
    let _ = env.insert(
        String::from_str("NEXUM_CAPSULE_WORKSPACE"),
        decimal_text(capsule.workspace as u64),
    );
    assert(text_values(env@) =~= runtime_env_of(capsule@));
    proof {
        env.lemma_ordered();
        lemma_runtime_env_keys_ascending();
        let keys = runtime_env_keys();
        assert(keys[0] == "NEXUM_CAPSULE_DOMAIN"@);
        assert(keys[1] == "NEXUM_CAPSULE_ID"@);
        assert(keys[2] == "NEXUM_CAPSULE_SLUG"@);
        assert(keys[3] == "NEXUM_CAPSULE_WORKSPACE"@);
        assert forall|k: Seq<char>| env.ordered_keys().contains(k) <==> keys.contains(k) by {
            if env.ordered_keys().contains(k) {
                let at = env.ordered_keys().index_of(k);
                assert(env@.contains_key(env.ordered_keys()[at]));
            }
            if keys.contains(k) {
                assert(env@.contains_key(k));
            }
        }
        lemma_same_keys(env.ordered_keys(), keys);
    }
    env
}

/// The label of a capsule's terminal process: `nexum-terminal-` and its id.
pub fn terminal_process_label(capsule_id: &str) -> (label: String)
    ensures
        label@ == process_label_of(capsule_id@),
{
    conjoin("nexum-terminal-", capsule_id)
}

} // verus!

//! The capsule: a named unit of work with a stable slug, a local domain, a mode
//! and a lifecycle state.

use crate::text::{conjoin, text_eq, text_of_range};
use vstd::prelude::*;

verus! {

/// How a capsule's processes are run.
#[derive(Debug, Clone, Copy, PartialEq, Eq, Structural)]
pub enum CapsuleMode {
    HostDefault,
    IsolatedNixShell,
}

/// Where a capsule stands in its lifecycle.
#[derive(Debug, Clone, Copy, PartialEq, Eq, Structural)]
pub enum CapsuleState {
    Creating,
    Ready,
    Restoring,
    Degraded,
    Archived,
}

/// A capsule record.
#[derive(Debug, PartialEq, Eq)]
pub struct Capsule {
    pub capsule_id: String,
    pub slug: String,
    pub display_name: String,
    pub repo_path: String,
    pub mode: CapsuleMode,
    pub state: CapsuleState,
    pub workspace: u16,
}

/// What a capsule record holds, as plain values.
pub struct CapsuleView {
    pub capsule_id: Seq<char>,
    pub slug: Seq<char>,
    pub display_name: Seq<char>,
    pub repo_path: Seq<char>,
    pub mode: CapsuleMode,
    pub state: CapsuleState,
    pub workspace: u16,
}

impl View for Capsule {
    type V = CapsuleView;

    open spec fn view(&self) -> CapsuleView {
        CapsuleView {
            capsule_id: self.capsule_id@,
            slug: self.slug@,
            display_name: self.display_name@,
            repo_path: self.repo_path@,
            mode: self.mode,
            state: self.state,
            workspace: self.workspace,
        }
    }
}

impl DeepView for Capsule {
    type V = CapsuleView;

    open spec fn deep_view(&self) -> CapsuleView {
        self@
    }
}

impl Clone for Capsule {
    fn clone(&self) -> (copy: Self)
        ensures
            copy@ == self@,
    {
        Capsule {
            capsule_id: self.capsule_id.clone(),
            slug: self.slug.clone(),
            display_name: self.display_name.clone(),
            repo_path: self.repo_path.clone(),
            mode: self.mode,
            state: self.state,
            workspace: self.workspace,
        }
    }
}

/// The lower-case form of an ASCII letter; any other character unchanged.
pub open spec fn ascii_lower(c: char) -> char {
    if 'A' <= c <= 'Z' {
        ((c as u8) + 32) as char
    } else {
        c
    }
}

/// A lower-case ASCII letter or an ASCII digit.
pub open spec fn is_slug_char(c: char) -> bool {
    ('a' <= c <= 'z') || ('0' <= c <= '9')
}

/// `input` lower-cased, with every run of characters that are neither letters
/// nor digits turned into one `-`.
pub open spec fn collapsed(input: Seq<char>) -> Seq<char>
    decreases input.len(),
{
    if input.len() == 0 {
        Seq::empty()
    } else {
        let before = collapsed(input.drop_last());
        let c = ascii_lower(input.last());
        if is_slug_char(c) {
            before.push(c)
        } else if before.len() > 0 && before.last() == '-' {
            before
        } else {
            before.push('-')
        }
    }
}

/// How many `-` stand at the start of `s`.
pub open spec fn leading_dashes(s: Seq<char>) -> nat
    decreases s.len(),
{
    if s.len() > 0 && s[0] == '-' {
        1 + leading_dashes(s.drop_first())
    } else {
        0
    }
}

/// How many `-` stand at the end of `s`.
pub open spec fn trailing_dashes(s: Seq<char>) -> nat
    decreases s.len(),
{
    if s.len() > 0 && s.last() == '-' {
        1 + trailing_dashes(s.drop_last())
    } else {
        0
    }
}

/// `s` without the `-` at its start and at its end.
pub open spec fn trim_dashes(s: Seq<char>) -> Seq<char> {
    let rest = s.skip(leading_dashes(s) as int);
    rest.take(rest.len() - trailing_dashes(rest))
}

/// The slug of a display name.
pub open spec fn slug_of(name: Seq<char>) -> Seq<char> {
    let trimmed = trim_dashes(collapsed(name));
    if trimmed.len() == 0 {
        "capsule"@
    } else {
        trimmed
    }
}

/// A valid slug: not empty, made of lower-case letters, digits and `-`, with a
/// letter or digit at both ends.
pub open spec fn is_slug(s: Seq<char>) -> bool {
    &&& s.len() > 0
    &&& forall|i: int| 0 <= i < s.len() ==> is_slug_char(#[trigger] s[i]) || s[i] == '-'
    &&& is_slug_char(s[0])
    &&& is_slug_char(s.last())
}

/// The domain that belongs to a slug.
pub open spec fn domain_of(slug: Seq<char>) -> Seq<char> {
    slug + ".nexum.local"@
}

/// The lower-case form of an ASCII letter; any other character unchanged.
pub fn to_ascii_lower(c: char) -> (lower: char)
    ensures
        lower == ascii_lower(c),
{
    if 'A' <= c && c <= 'Z' {
        let b: u8 = c as u8;
        (b + 32) as char
    } else {
        c
    }
}

/// Derives the slug of a display name: lower-case, runs of other characters
/// turned into one `-`, no `-` at either end, and `capsule` where nothing is left.
pub fn normalize_slug(input: &str) -> (slug: String)
    ensures
        slug@ == slug_of(input@),
        is_slug(slug@),
{
    let mut chars: Vec<char> = Vec::new();
    for ch in it: input.chars()
        invariant
            it.seq() == input@,
            chars@ == collapsed(it.seq().take(it.index())),
            forall|i: int| 0 <= i < chars.len() ==> is_slug_char(#[trigger] chars@[i]) || chars@[i] == '-',
    {
        let lower = to_ascii_lower(ch);
        proof {
            let upto = it.seq().take(it.index() + 1);
            assert(upto.drop_last() =~= it.seq().take(it.index()));
            assert(upto.last() == ch);
        }
        let n: usize = chars.len();
        if ('a' <= lower && lower <= 'z') || ('0' <= lower && lower <= '9') {
            chars.push(lower);
        } else if !(n > 0 && chars[n - 1] == '-') {
            chars.push('-');
        }
    }
    assert(input@.take(input@.len() as int) =~= input@);
    let n: usize = chars.len();
    let mut lo: usize = 0;
    assert(chars@.skip(0) =~= chars@);
    while lo < n && chars[lo] == '-'
        invariant
            n == chars.len(),
            lo <= n,
            leading_dashes(chars@) == lo + leading_dashes(chars@.skip(lo as int)),
        decreases n - lo,
    {
        assert(chars@.skip(lo as int).drop_first() =~= chars@.skip(lo + 1));
        lo += 1;
    }
    let ghost rest = chars@.skip(lo as int);
    let mut hi: usize = n;
    assert(rest.take(n - lo) =~= rest);
    while hi > lo && chars[hi - 1] == '-'
        invariant
            n == chars.len(),
            lo <= hi <= n,
            rest == chars@.skip(lo as int),
            trailing_dashes(rest) == (n - hi) + trailing_dashes(rest.take(hi - lo)),
        decreases hi,
    {
        assert(rest.take(hi - lo).drop_last() =~= rest.take(hi - lo - 1));
        hi -= 1;
    }
    proof {
        assert(rest.take(rest.len() - trailing_dashes(rest)) =~= chars@.subrange(
            lo as int,
            hi as int,
        ));
    }
    if lo == hi {
        proof {
            reveal_strlit("capsule");
        }
        return String::from_str("capsule");
    }
    text_of_range(&chars, lo, hi)
}

/// The wire name of a mode.
pub open spec fn mode_text(mode: CapsuleMode) -> Seq<char> {
    match mode {
        CapsuleMode::HostDefault => "host_default"@,
        CapsuleMode::IsolatedNixShell => "isolated_nix_shell"@,
    }
}

/// The wire name of a state.
pub open spec fn state_text(state: CapsuleState) -> Seq<char> {
    match state {
        CapsuleState::Creating => "creating"@,
        CapsuleState::Ready => "ready"@,
        CapsuleState::Restoring => "restoring"@,
        CapsuleState::Degraded => "degraded"@,
        CapsuleState::Archived => "archived"@,
    }
}

/// The mode that a wire name stands for, if any.
pub open spec fn mode_named(name: Seq<char>) -> Option<CapsuleMode> {
    if name == "host_default"@ {
        Some(CapsuleMode::HostDefault)
    } else if name == "isolated_nix_shell"@ {
        Some(CapsuleMode::IsolatedNixShell)
    } else {
        None
    }
}

/// The state that a wire name stands for, if any.
pub open spec fn state_named(name: Seq<char>) -> Option<CapsuleState> {
    if name == "creating"@ {
        Some(CapsuleState::Creating)
    } else if name == "ready"@ {
        Some(CapsuleState::Ready)
    } else if name == "restoring"@ {
        Some(CapsuleState::Restoring)
    } else if name == "degraded"@ {
        Some(CapsuleState::Degraded)
    } else if name == "archived"@ {
        Some(CapsuleState::Archived)
    } else {
        None
    }
}

/// The wire name of a mode.
pub fn mode_to_str(mode: CapsuleMode) -> (name: &'static str)
    ensures
        name@ == mode_text(mode),
{
    match mode {
        CapsuleMode::HostDefault => "host_default",
        CapsuleMode::IsolatedNixShell => "isolated_nix_shell",
    }
}

/// The wire name of a state.
pub fn state_to_str(state: CapsuleState) -> (name: &'static str)
    ensures
        name@ == state_text(state),
{
    match state {
        CapsuleState::Creating => "creating",
        CapsuleState::Ready => "ready",
        CapsuleState::Restoring => "restoring",
        CapsuleState::Degraded => "degraded",
        CapsuleState::Archived => "archived",
    }
}

/// Reads a state from its wire name.
pub fn parse_state(input: &str) -> (state: Option<CapsuleState>)
    ensures
        state == state_named(input@),
{
    if text_eq(input, "creating") {
        Some(CapsuleState::Creating)
    } else if text_eq(input, "ready") {
        Some(CapsuleState::Ready)
    } else if text_eq(input, "restoring") {
        Some(CapsuleState::Restoring)
    } else if text_eq(input, "degraded") {
        Some(CapsuleState::Degraded)
    } else if text_eq(input, "archived") {
        Some(CapsuleState::Archived)
    } else {
        None
    }
}

/// Reads a mode from its wire name; the error says which name was refused.
pub fn parse_mode(input: &str) -> (mode: Result<CapsuleMode, String>)
    ensures
        match mode {
            Ok(m) => mode_named(input@) == Some(m),
            Err(message) => mode_named(input@) is None && message@ == "invalid mode: "@ + input@,
        },
{
    if text_eq(input, "host_default") {
        Ok(CapsuleMode::HostDefault)
    } else if text_eq(input, "isolated_nix_shell") {
        Ok(CapsuleMode::IsolatedNixShell)
    } else {
        Err(conjoin("invalid mode: ", input))
    }
}

impl std::str::FromStr for CapsuleMode {
    type Err = String;

    /// Reads a mode from its wire name, as `parse_mode` does.
    fn from_str(input: &str) -> (mode: Result<Self, String>)
        ensures
            match mode {
                Ok(m) => mode_named(input@) == Some(m),
                Err(message) => mode_named(input@) is None && message@ == "invalid mode: "@
                    + input@,
            },
    {
        parse_mode(input)
    }
}

impl Capsule {
    /// Whether the slug is a valid one.
    pub open spec fn well_formed(&self) -> bool {
        is_slug(self.slug@)
    }

    /// A capsule in state `ready`, with the slug of its first display name and
    /// no repository path.
    pub fn new(capsule_id: &str, display_name: &str, mode: CapsuleMode, workspace: u16) -> (capsule:
        Self)
        ensures
            capsule@ == (CapsuleView {
                capsule_id: capsule_id@,
                slug: slug_of(display_name@),
                display_name: display_name@,
                repo_path: Seq::empty(),
                mode,
                state: CapsuleState::Ready,
                workspace,
            }),
            capsule.well_formed(),
    {
        Capsule {
            capsule_id: String::from_str(capsule_id),
            slug: normalize_slug(display_name),
            display_name: String::from_str(display_name),
            repo_path: String::new(),
            mode,
            state: CapsuleState::Ready,
            workspace,
        }
    }

    /// Changes the label; the slug stays.
    pub fn rename_display_name(&mut self, display_name: &str)
        ensures
            final(self)@ == (CapsuleView { display_name: display_name@, ..old(self)@ }),
    {
        self.display_name = String::from_str(display_name);
    }

    /// The local domain of the capsule: its slug followed by `.nexum.local`.
    pub fn domain(&self) -> (domain: String)
        ensures
            domain@ == domain_of(self.slug@),
    {
        conjoin(self.slug.as_str(), ".nexum.local")
    }

    /// Writes the state; any target is accepted.
    pub fn transition_state(&mut self, state: CapsuleState)
        ensures
            final(self)@ == (CapsuleView { state, ..old(self)@ }),
    {
        self.state = state;
    }

    /// The same capsule with the repository path set.
    pub fn with_repo_path(self, repo_path: &str) -> (capsule: Self)
        ensures
            capsule@ == (CapsuleView { repo_path: repo_path@, ..self@ }),
    {
        let mut capsule = self;
        capsule.repo_path = String::from_str(repo_path);
        capsule
    }

    /// Sets the repository path.
    pub fn set_repo_path(&mut self, repo_path: &str)
        ensures
            final(self)@ == (CapsuleView { repo_path: repo_path@, ..old(self)@ }),
    {
        self.repo_path = String::from_str(repo_path);
    }
}

/// Every slug that `normalize_slug` derives is valid, and so is the slug of
/// every capsule made by `Capsule::new`, whatever the display name.
pub proof fn lemma_slug_of_is_slug(name: Seq<char>)
    ensures
        is_slug(slug_of(name)),
{
    lemma_collapsed_chars(name);
    let all = collapsed(name);
    lemma_leading_dashes(all);
    let rest = all.skip(leading_dashes(all) as int);
    lemma_trailing_dashes(rest);
    let trimmed = trim_dashes(all);
    if trimmed.len() == 0 {
        reveal_strlit("capsule");
    } else {
        assert(trimmed[0] == rest[0]);
        assert(trimmed.last() == rest[rest.len() - trailing_dashes(rest) - 1]);
        assert forall|i: int| 0 <= i < trimmed.len() implies is_slug_char(#[trigger] trimmed[i])
            || trimmed[i] == '-' by {
            assert(trimmed[i] == all[leading_dashes(all) + i]);
        }
    }
}

/// `collapsed` yields only letters, digits and `-`.
pub proof fn lemma_collapsed_chars(input: Seq<char>)
    ensures
        forall|i: int|
            0 <= i < collapsed(input).len() ==> is_slug_char(#[trigger] collapsed(input)[i])
                || collapsed(input)[i] == '-',
    decreases input.len(),
{
    if input.len() > 0 {
        lemma_collapsed_chars(input.drop_last());
        let before = collapsed(input.drop_last());
        let all = collapsed(input);
        assert forall|i: int| 0 <= i < all.len() implies is_slug_char(#[trigger] all[i]) || all[i]
            == '-' by {
            if i < before.len() {
                assert(all[i] == before[i]);
            }
        }
    }
}

/// The leading `-` are within the sequence, and what follows them is no `-`.
pub proof fn lemma_leading_dashes(s: Seq<char>)
    ensures
        leading_dashes(s) <= s.len(),
        leading_dashes(s) < s.len() ==> s[leading_dashes(s) as int] != '-',
    decreases s.len(),
{
    if s.len() > 0 && s[0] == '-' {
        lemma_leading_dashes(s.drop_first());
    }
}

/// The trailing `-` are within the sequence, and what precedes them is no `-`.
pub proof fn lemma_trailing_dashes(s: Seq<char>)
    ensures
        trailing_dashes(s) <= s.len(),
        trailing_dashes(s) < s.len() ==> s[s.len() - trailing_dashes(s) - 1] != '-',
    decreases s.len(),
{
    if s.len() > 0 && s.last() == '-' {
        lemma_trailing_dashes(s.drop_last());
    }
}

} // verus!

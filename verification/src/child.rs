//! Choice of the child on-screen keyboard.
//!
//! Selection priority:
//!   1. the `BIGCEDILLA_CHILD_IM` environment variable (an absolute path, or
//!      a basename looked up in `/usr/bin`), which must then exist;
//!   2. `/usr/bin/plasma-keyboard` if it exists;
//!   3. `/usr/bin/maliit-keyboard` if it exists.
//!
//! Reading the environment and probing the file system are left to the
//! caller, which hands the answers in.
use vstd::prelude::*;
use vstd::string::*;

verus! {

/// Environment variable that names the child keyboard explicitly.
pub const CHILD_IM_ENV: &'static str = "BIGCEDILLA_CHILD_IM";

/// Directory in which a bare name given in [`CHILD_IM_ENV`] is looked up.
pub const BIN_DIR: &'static str = "/usr/bin/";

/// First default child keyboard.
pub const PLASMA_KEYBOARD: &'static str = "/usr/bin/plasma-keyboard";

/// Second default child keyboard.
pub const MALIIT_KEYBOARD: &'static str = "/usr/bin/maliit-keyboard";

/// Why no child keyboard could be chosen.
#[derive(Debug)]
pub enum ChildPickError {
    /// [`CHILD_IM_ENV`] names this path, which does not exist.
    OverrideMissing(String),
    /// Neither default keyboard is installed.
    NoKeyboard,
}

/// The default keyboards, in order of preference.
pub open spec fn candidates_spec() -> Seq<Seq<char>> {
    seq![PLASMA_KEYBOARD@, MALIIT_KEYBOARD@]
}

/// The default keyboards, in order of preference.
pub fn child_candidates() -> (v: Vec<&'static str>)
    ensures
        v@.len() == candidates_spec().len(),
        forall|i: int| 0 <= i < v@.len() ==> #[trigger] v@[i]@ == candidates_spec()[i],
{
    let mut v: Vec<&'static str> = Vec::new();
    v.push(PLASMA_KEYBOARD);
    v.push(MALIIT_KEYBOARD);
    v
}

/// The path named by the override `custom`: itself when it holds a `/`,
/// otherwise the name inside [`BIN_DIR`].
pub open spec fn override_path_spec(custom: Seq<char>) -> Seq<char> {
    if custom.contains('/') {
        custom
    } else {
        BIN_DIR@ + custom
    }
}

fn contains_slash(s: &str) -> (b: bool)
    ensures
        b == s@.contains('/'),
{
    let len = s.unicode_len();
    let mut i: usize = 0;
    while i < len
        invariant
            len == s@.len(),
            i <= len,
            forall|j: int| 0 <= j < i ==> s@[j] != '/',
        decreases len - i,
    {
        if s.get_char(i) == '/' {
            return true;
        }
        i = i + 1;
    }
    false
}

/// The path that the override value `custom` designates.
pub fn child_override_path(custom: &str) -> (p: String)
    ensures
        p@ == override_path_spec(custom@),
{
    if contains_slash(custom) {
        custom.to_string()
    } else {
        BIN_DIR.to_string().concat(custom)
    }
}

/// The `i`-th default keyboard exists.
pub open spec fn candidate_found(candidate_exists: Seq<bool>, i: int) -> bool {
    0 <= i < candidates_spec().len() && i < candidate_exists.len() && candidate_exists[i]
}

/// The first default keyboard at position `i` or later that exists.
pub open spec fn first_found_from(candidate_exists: Seq<bool>, i: nat) -> Option<int>
    decreases candidates_spec().len() - i,
{
    if i >= candidates_spec().len() {
        None
    } else if candidate_found(candidate_exists, i as int) {
        Some(i as int)
    } else {
        first_found_from(candidate_exists, i + 1)
    }
}

/// The outcome of the choice. `override_path` is the path designated by the
/// override (see [`child_override_path`]) when one is set, with
/// `override_exists` telling whether it exists; `candidate_exists[i]` tells
/// whether the `i`-th default keyboard exists (a missing entry counts as
/// not existing).
pub open spec fn pick_spec(
    override_path: Option<Seq<char>>,
    override_exists: bool,
    candidate_exists: Seq<bool>,
) -> Result<Seq<char>, Option<Seq<char>>> {
    match override_path {
        Some(p) => if override_exists {
            Ok(p)
        } else {
            Err(Some(p))
        },
        None => match first_found_from(candidate_exists, 0) {
            Some(i) => Ok(candidates_spec()[i]),
            None => Err(None),
        },
    }
}

/// The view of a choice: `Ok` with the chosen path, `Err(Some(p))` for
/// [`ChildPickError::OverrideMissing`] with `p`, `Err(None)` for
/// [`ChildPickError::NoKeyboard`].
pub open spec fn pick_view(r: Result<String, ChildPickError>) -> Result<Seq<char>, Option<Seq<char>>> {
    match r {
        Ok(p) => Ok(p@),
        Err(ChildPickError::OverrideMissing(p)) => Err(Some(p@)),
        Err(ChildPickError::NoKeyboard) => Err(None),
    }
}

/// Chooses the child keyboard: the override when one is set and exists (an
/// error when it does not), else the first default keyboard that exists.
pub fn pick_child_binary(
    override_path: Option<String>,
    override_exists: bool,
    candidate_exists: &[bool],
) -> (r: Result<String, ChildPickError>)
    ensures
        pick_view(r) == pick_spec(
            match override_path {
                Some(p) => Some(p@),
                None => None,
            },
            override_exists,
            candidate_exists@,
        ),
{
    match override_path {
        Some(path) => {
            if override_exists {
                return Ok(path);
            }
            return Err(ChildPickError::OverrideMissing(path));
        },
        None => {},
    }
    let candidates = child_candidates();
    let mut i: usize = 0;
    while i < candidates.len()
        invariant
            candidates@.len() == candidates_spec().len(),
            forall|k: int| 0 <= k < candidates@.len() ==> #[trigger] candidates@[k]@ == candidates_spec()[k],
            i <= candidates.len(),
            override_path is None,
            first_found_from(candidate_exists@, 0) == first_found_from(candidate_exists@, i as nat),
        decreases candidates.len() - i,
    {
        if i < candidate_exists.len() && candidate_exists[i] {
            return Ok(candidates[i].to_string());
        }
        i = i + 1;
    }
    Err(ChildPickError::NoKeyboard)
}

/// An override decides alone: when it exists it is the choice, and when it
/// does not the choice fails naming it, whatever the default keyboards.
pub proof fn lemma_override_decides(p: Seq<char>, override_exists: bool, candidate_exists: Seq<bool>)
    ensures
        override_exists ==> pick_spec(Some(p), override_exists, candidate_exists) == Ok::<
            Seq<char>,
            Option<Seq<char>>,
        >(p),
        !override_exists ==> pick_spec(Some(p), override_exists, candidate_exists) == Err::<
            Seq<char>,
            Option<Seq<char>>,
        >(Some(p)),
{
}

/// Without an override, `plasma-keyboard` is chosen when it exists, else
/// `maliit-keyboard` when it exists, else the choice fails with no path.
pub proof fn lemma_defaults_in_order(candidate_exists: Seq<bool>)
    ensures
        ({
            let plasma = candidate_exists.len() > 0 && candidate_exists[0];
            let maliit = candidate_exists.len() > 1 && candidate_exists[1];
            let r = pick_spec(None, false, candidate_exists);
            &&& plasma ==> r == Ok::<Seq<char>, Option<Seq<char>>>(PLASMA_KEYBOARD@)
            &&& !plasma && maliit ==> r == Ok::<Seq<char>, Option<Seq<char>>>(MALIIT_KEYBOARD@)
            &&& !plasma && !maliit ==> r == Err::<Seq<char>, Option<Seq<char>>>(None)
            &&& pick_spec(None, true, candidate_exists) == r
        }),
{
    reveal_with_fuel(first_found_from, 3);
}

/// A value holding a `/` is taken as a path as it is; any other value is a
/// name inside `/usr/bin/`.
pub proof fn lemma_override_path(custom: Seq<char>)
    ensures
        custom.contains('/') ==> override_path_spec(custom) == custom,
        !custom.contains('/') ==> override_path_spec(custom) == BIN_DIR@ + custom,
{
}

} // verus!

//! Validation of the command-line flags shared by several commands.

use crate::error::Error;
use vstd::prelude::*;

verus! {

/// The raw `--quiet` / `--verbose` switches as they were given.
#[derive(Debug, Clone, Copy, PartialEq, Eq, Structural)]
pub struct VerbosityFlags {
    pub quiet: bool,
    pub verbose: bool,
}

/// How much output the build tooling should produce.
#[derive(Debug, Clone, Copy, PartialEq, Eq, Structural)]
pub enum Verbosity {
    Quiet,
    Verbose,
}

impl Verbosity {
    /// The verbosity that a pair of switches selects, where they do not contradict each other.
    pub open spec fn selected(quiet: bool, verbose: bool) -> Option<Verbosity> {
        if quiet {
            Some(Verbosity::Quiet)
        } else if verbose {
            Some(Verbosity::Verbose)
        } else {
            None
        }
    }

    /// Turns the two switches into a verbosity. Giving both is the only error.
    pub fn try_from(value: &VerbosityFlags) -> (r: Result<Option<Verbosity>, Error>)
        ensures
            r is Ok <==> !(value.quiet && value.verbose),
            r matches Ok(v) ==> v == Self::selected(value.quiet, value.verbose),
            r matches Err(e) ==> e == Error::ConflictingFlags,
    {
        if value.quiet && value.verbose {
            Err(Error::ConflictingFlags)
        } else if value.quiet {
            Ok(Some(Verbosity::Quiet))
        } else if value.verbose {
            Ok(Some(Verbosity::Verbose))
        } else {
            Ok(None)
        }
    }
}

/// The raw `-Z` / `--unstable-options` names as they were given.
#[derive(Debug, Clone, PartialEq, Eq)]
pub struct UnstableOptions {
    pub options: Vec<String>,
}

/// The effects that the accepted unstable options switch on.
#[derive(Debug, Clone, Copy, PartialEq, Eq, Structural)]
pub struct UnstableFlags {
    /// Build from the manifest as written instead of a rewritten copy.
    pub original_manifest: bool,
}

/// The one unstable option that is currently accepted.
pub open spec fn original_manifest_name() -> Seq<char> {
    "original-manifest"@
}

/// Whether `name` is on the allowlist of unstable options.
pub open spec fn is_known_option(name: Seq<char>) -> bool {
    name == original_manifest_name()
}

/// The names in `names` that are not on the allowlist, in their input order.
pub open spec fn unknown_options(names: Seq<Seq<char>>) -> Seq<Seq<char>> {
    names.filter(|n: Seq<char>| !is_known_option(n))
}

/// The rejected names are exactly the foreign ones: every name off the allowlist is among
/// them, and every one of them is a name off the allowlist that was given.
pub proof fn lemma_unknown_options_are_the_foreign_names(names: Seq<Seq<char>>)
    ensures
        forall|i: int|
            0 <= i < names.len() && !is_known_option(names[i]) ==> unknown_options(names).contains(
                #[trigger] names[i],
            ),
        forall|j: int|
            0 <= j < unknown_options(names).len() ==> !is_known_option(
                #[trigger] unknown_options(names)[j],
            ) && names.contains(unknown_options(names)[j]),
        unknown_options(names).len() == 0 <==> forall|i: int|
            0 <= i < names.len() ==> is_known_option(#[trigger] names[i]),
{
    let foreign = |n: Seq<char>| !is_known_option(n);
    let rejected = names.filter(foreign);
    assert forall|i: int| 0 <= i < names.len() && !is_known_option(names[i]) implies rejected.contains(
        #[trigger] names[i],
    ) by {
        names.lemma_filter_contains(foreign, i);
    }
    assert forall|j: int| 0 <= j < rejected.len() implies !is_known_option(#[trigger] rejected[j])
        && names.contains(rejected[j]) by {
        names.lemma_filter_pred(foreign, j);
        assert(rejected.contains(rejected[j]));
        names.lemma_filter_contains_rev(foreign, rejected[j]);
    }
    if rejected.len() == 0 {
        assert forall|i: int| 0 <= i < names.len() implies is_known_option(#[trigger] names[i]) by {
            if !is_known_option(names[i]) {
                assert(rejected.contains(names[i]));
            }
        }
    } else {
        assert(!is_known_option(rejected[0]) && names.contains(rejected[0]));
    }
}

/// The effects that `names` switch on, where all of them are known.
pub open spec fn accepted_flags(names: Seq<Seq<char>>) -> UnstableFlags {
    UnstableFlags { original_manifest: names.contains(original_manifest_name()) }
}

/// A sequence extended by one element holds what it held before, and that element.
proof fn lemma_push_contains<A>(s: Seq<A>, last: A, needle: A)
    ensures
        s.push(last).contains(needle) <==> s.contains(needle) || last == needle,
{
    let t = s.push(last);
    if s.contains(needle) {
        let j = choose|j: int| 0 <= j < s.len() && s[j] == needle;
        assert(t[j] == needle);
    }
    if last == needle {
        assert(t[s.len() as int] == needle);
    }
    if t.contains(needle) {
        let j = choose|j: int| 0 <= j < t.len() && t[j] == needle;
        if j < s.len() {
            assert(s[j] == needle);
        }
    }
}

impl UnstableFlags {
    /// Validates the given option names against the allowlist.
    ///
    /// A single foreign name rejects the whole set, and the error lists every foreign name.
    pub fn try_from(value: &UnstableOptions) -> (r: Result<UnstableFlags, Error>)
        ensures
            r is Ok <==> forall|i: int|
                0 <= i < value.options.len() ==> is_known_option(
                    #[trigger] value.options.deep_view()[i],
                ),
            r is Ok <==> unknown_options(value.options.deep_view()).len() == 0,
            r matches Ok(flags) ==> flags == accepted_flags(value.options.deep_view()),
            r matches Err(e) ==> e matches Error::UnknownOption { names } && names.deep_view()
                == unknown_options(value.options.deep_view()) && names.len() > 0,
    {
        let known: String = "original-manifest".to_owned();
        let ghost all = value.options.deep_view();
        let ghost foreign = |n: Seq<char>| !is_known_option(n);
        let mut invalid: Vec<String> = Vec::new();
        let mut original_manifest = false;
        let mut i: usize = 0;
        assert(all.take(0) =~= Seq::<Seq<char>>::empty());
        assert(invalid.deep_view() =~= Seq::<Seq<char>>::empty());
        while i < value.options.len()
            invariant
                i <= value.options.len(),
                all == value.options.deep_view(),
                all.len() == value.options.len(),
                known@ == original_manifest_name(),
                foreign == |n: Seq<char>| !is_known_option(n),
                invalid.deep_view() == all.take(i as int).filter(foreign),
                invalid.len() == 0 <==> forall|j: int| 0 <= j < i ==> is_known_option(#[trigger] all[j]),
                original_manifest == all.take(i as int).contains(original_manifest_name()),
                forall|j: int| 0 <= j < all.len() ==> #[trigger] all[j] == value.options[j]@,
            decreases value.options.len() - i,
        {
            let option = &value.options[i];
            let ghost before = all.take(i as int);
            let ghost old_invalid = invalid.deep_view();
            proof {
                assert(all.take(i + 1) =~= before.push(all[i as int]));
                before.lemma_filter_push(all[i as int], foreign);
                lemma_push_contains(before, all[i as int], original_manifest_name());
            }
            if *option == known {
                original_manifest = true;
            } else {
                invalid.push(option.clone());
                assert(invalid.deep_view() =~= old_invalid.push(all[i as int]));
                assert(!is_known_option(all[i as int]));
            }
            i += 1;
        }
        assert(all.take(i as int) =~= all);
        if invalid.len() > 0 {
            Err(Error::UnknownOption { names: invalid })
        } else {
            Ok(UnstableFlags { original_manifest })
        }
    }
}

} // verus!

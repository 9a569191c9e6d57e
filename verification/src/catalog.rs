//! The device catalog: filtering the stable-by-identifier directory entries
//! down to whole devices, rendering the numbered list the operator chooses
//! from, and resolving the operator's answer to one device identifier.

use vstd::prelude::*;
use vstd::string::StrSliceExecFns;
use vstd::string::StringExecFns;
use crate::text::contains_seq;
use crate::text::contains_substr;
use crate::text::dec_string_of;
use crate::text::dec_value;
use crate::text::is_dec_string;
use crate::text::parse_dec;
use crate::text::usize_to_dec;

verus! {

/// The operator's answer did not resolve to a device: either it was not a
/// decimal numeral a machine word can hold, or the number it denoted was
/// outside the listed range. Both are terminal for the pipeline — there is
/// no re-prompt loop.
#[derive(Clone, Copy, Debug, PartialEq, Eq, Structural)]
pub enum SelectionError {
    NotANumber,
    OutOfRange,
}

/// A catalog entry names a partition of a device rather than a whole device.
/// This is the original's heuristic, not an authoritative rule: it matches
/// the marker substring anywhere in the name, so a device whose stable
/// identifier happens to contain "part" would be wrongly excluded.
pub open spec fn marks_partition(name: Seq<char>) -> bool {
    contains_seq(name, "part"@)
}

/// The catalog entries that name whole devices, in directory order: every
/// entry marked as a partition is dropped, every other entry is kept.
pub open spec fn keep_whole_devices(names: Seq<Seq<char>>) -> Seq<Seq<char>>
    decreases names.len(),
{
    if names.len() == 0 {
        Seq::empty()
    } else {
        let rest = keep_whole_devices(names.drop_last());
        if marks_partition(names.last()) {
            rest
        } else {
            rest.push(names.last())
        }
    }
}

/// The filter excludes every entry carrying the partition marker, wherever
/// it stands in the list, and keeps every entry that does not carry it.
pub proof fn lemma_keep_whole_devices_complete(names: Seq<Seq<char>>)
    ensures
        forall|j: int|
            0 <= j < keep_whole_devices(names).len() ==> !marks_partition(
                #[trigger] keep_whole_devices(names)[j],
            ),
        forall|i: int|
            0 <= i < names.len() && !marks_partition(#[trigger] names[i])
                ==> keep_whole_devices(names).contains(names[i]),
        keep_whole_devices(names).len() <= names.len(),
    decreases names.len(),
{
    if names.len() > 0 {
        lemma_keep_whole_devices_complete(names.drop_last());
        let rest = keep_whole_devices(names.drop_last());
        assert forall|i: int|
            0 <= i < names.len() && !marks_partition(#[trigger] names[i]) implies
            keep_whole_devices(names).contains(names[i]) by {
            if i == names.len() - 1 {
                assert(keep_whole_devices(names)[keep_whole_devices(names).len() - 1]
                    == names.last());
            } else {
                assert(names.drop_last()[i] == names[i]);
                assert(rest.contains(names[i]));
                let w = choose|k: int| 0 <= k < rest.len() && rest[k] == names[i];
                assert(keep_whole_devices(names)[w] == names[i]);
            }
        }
    }
}

/// Keeps the catalog entries that name whole devices, in directory order,
/// dropping every entry marked as a partition.
pub fn filter_devices(entries: &Vec<String>) -> (r: Vec<String>)
    ensures
        r.deep_view() == keep_whole_devices(entries.deep_view()),
{
    let mut r: Vec<String> = Vec::new();
    let mut i: usize = 0;
    proof {
        assert(entries.deep_view().take(0) =~= Seq::<Seq<char>>::empty());
        assert(r.deep_view() =~= keep_whole_devices(entries.deep_view().take(0)));
    }
    while i < entries.len()
        invariant
            i <= entries@.len(),
            r.deep_view() == keep_whole_devices(entries.deep_view().take(i as int)),
        decreases entries@.len() - i,
    {
        let ghost before = r.deep_view();
        let name = &entries[i];
        let keep = !contains_substr(name.as_str(), "part");
        if keep {
            r.push(name.clone());
        }
        proof {
            let prefix1 = entries.deep_view().take(i + 1);
            assert(prefix1.drop_last() =~= entries.deep_view().take(i as int));
            assert(prefix1.last() == name@);
            if keep {
                assert(r.deep_view() =~= before.push(name@));
            }
        }
        i = i + 1;
    }
    proof {
        assert(entries.deep_view().take(entries@.len() as int) =~= entries.deep_view());
    }
    r
}

/// Renders the selectable list: one line per candidate, numbered from one,
/// each carrying the candidate's name verbatim.
pub fn device_menu_lines(devices: &Vec<String>) -> (r: Vec<String>)
    ensures
        r@.len() == devices@.len(),
        forall|i: int|
            0 <= i < devices@.len() ==> #[trigger] r@[i]@ == "  "@ + dec_string_of(
                (i + 1) as nat,
            ) + ") "@ + devices@[i]@,
{
    let mut r: Vec<String> = Vec::new();
    let mut i: usize = 0;
    while i < devices.len()
        invariant
            i <= devices@.len(),
            r@.len() == i,
            forall|j: int|
                0 <= j < i ==> #[trigger] r@[j]@ == "  "@ + dec_string_of(
                    (j + 1) as nat,
                ) + ") "@ + devices@[j]@,
        decreases devices@.len() - i,
    {
        let numeral = usize_to_dec(i + 1);
        let mut line = String::from_str("  ");
        line.append(numeral.as_str());
        line.append(") ");
        line.append(devices[i].as_str());
        r.push(line);
        i = i + 1;
    }
    r
}

/// Resolves the operator's answer against the candidate list: the answer is
/// accepted exactly when it is a decimal numeral denoting a number between
/// one and the number of candidates, and then names the candidate in that
/// position of the list. Empty input, stray characters or a value no machine
/// word holds are `NotANumber`; zero or anything past the end of the list is
/// `OutOfRange`.
pub fn resolve_selection(candidates: &Vec<String>, input: &str) -> (r: Result<
    String,
    SelectionError,
>)
    ensures
        r is Ok <==> is_dec_string(input@) && 1 <= dec_value(input@) <= candidates@.len(),
        r matches Ok(d) ==> d == candidates@[dec_value(input@) - 1],
        r == Err::<String, SelectionError>(SelectionError::NotANumber) <==> !is_dec_string(input@)
            || dec_value(input@) > usize::MAX,
        r == Err::<String, SelectionError>(SelectionError::OutOfRange) <==> is_dec_string(input@)
            && dec_value(input@) <= usize::MAX && (dec_value(input@) == 0 || dec_value(input@)
            > candidates@.len()),
{
    let count = candidates.len();
    match parse_dec(input) {
        None => Err(SelectionError::NotANumber),
        Some(n) => {
            if n == 0 || n > count {
                Err(SelectionError::OutOfRange)
            } else {
                Ok(candidates[n - 1].clone())
            }
        },
    }
}

} // verus!

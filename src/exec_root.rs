//! The shape of the exec root that a build script runs in: the script
//! itself, a sentinel file, the output root and the external root, and
//! nothing else.

use vstd::prelude::*;

use crate::text::texts;

verus! {

/// The entries that the exec root of `script` must hold, in the order in
/// which they are checked.
pub open spec fn expected_entries(script: Seq<char>) -> Seq<Seq<char>> {
    seq![script, "root_file.txt"@, "bazel-out"@, "external"@]
}

/// Whether the `i`-th of `expected` is found among `entries`, counting each
/// entry once: it is there, and no earlier expected entry already claimed it.
pub open spec fn claims(entries: Seq<Seq<char>>, expected: Seq<Seq<char>>, i: int) -> bool {
    entries.contains(expected[i]) && !expected.take(i).contains(expected[i])
}

/// The entries that are none of `expected`, in order.
pub open spec fn unexpected(entries: Seq<Seq<char>>, expected: Seq<Seq<char>>) -> Seq<Seq<char>>
    decreases entries.len(),
{
    if entries.len() == 0 {
        entries
    } else {
        let rest = unexpected(entries.drop_last(), expected);
        if expected.contains(entries.last()) {
            rest
        } else {
            rest.push(entries.last())
        }
    }
}

/// Whether the check accepts an exec root holding `names` for `script`:
/// every expected entry is claimed and nothing else is there.
pub open spec fn exec_root_accepts(names: Seq<Seq<char>>, script: Seq<char>) -> bool {
    &&& forall|i: int| 0 <= i < 4 ==> claims(names, expected_entries(script), i)
    &&& unexpected(names, expected_entries(script)).len() == 0
}

/// Nothing is unexpected exactly when every entry is expected.
pub proof fn lemma_unexpected_empty(entries: Seq<Seq<char>>, expected: Seq<Seq<char>>)
    ensures
        unexpected(entries, expected).len() == 0 <==> forall|k: int|
            0 <= k < entries.len() ==> expected.contains(#[trigger] entries[k]),
    decreases entries.len(),
{
    if entries.len() > 0 {
        let init = entries.drop_last();
        lemma_unexpected_empty(init, expected);
        assert(entries.last() == entries[entries.len() - 1]);
        if forall|k: int| 0 <= k < entries.len() ==> expected.contains(#[trigger] entries[k]) {
            assert forall|k: int| 0 <= k < init.len() implies expected.contains(
                #[trigger] init[k],
            ) by {
                assert(init[k] == entries[k]);
            }
        }
        if unexpected(entries, expected).len() == 0 {
            assert forall|k: int| 0 <= k < entries.len() implies expected.contains(
                #[trigger] entries[k],
            ) by {
                if k < init.len() {
                    assert(init[k] == entries[k]);
                }
            }
        }
    }
}

/// The check accepts an exec root exactly when its entries are the four
/// expected names, all different from each other, and nothing else.
pub proof fn lemma_exec_root_exact(names: Seq<Seq<char>>, script: Seq<char>)
    ensures
        exec_root_accepts(names, script) <==> expected_entries(script).no_duplicates() && forall|
            x: Seq<char>,
        | names.contains(x) <==> expected_entries(script).contains(x),
{
    let expected = expected_entries(script);
    lemma_unexpected_empty(names, expected);
    if exec_root_accepts(names, script) {
        assert forall|i: int, j: int|
            0 <= i < expected.len() && 0 <= j < expected.len() && i != j implies expected[i]
            != expected[j] by {
            let (lo, hi) = if i < j { (i, j) } else { (j, i) };
            assert(claims(names, expected, hi));
            assert(expected.take(hi)[lo] == expected[lo]);
        }
        assert forall|x: Seq<char>| names.contains(x) <==> expected.contains(x) by {
            if expected.contains(x) {
                let i = choose|i: int| 0 <= i < expected.len() && expected[i] == x;
                assert(claims(names, expected, i));
            }
        }
    }
    if expected.no_duplicates() && forall|x: Seq<char>|
        names.contains(x) <==> expected.contains(x) {
        assert forall|i: int| 0 <= i < 4 implies claims(names, expected, i) by {
            assert(expected.contains(expected[i]));
            if expected.take(i).contains(expected[i]) {
                let j = choose|j: int| 0 <= j < i && expected.take(i)[j] == expected[i];
                assert(expected.take(i)[j] == expected[j]);
            }
        }
        assert forall|k: int| 0 <= k < names.len() implies expected.contains(
            #[trigger] names[k],
        ) by {
            assert(names.contains(names[k]));
        }
    }
}

/// How the exec root differs from what it must hold.
#[derive(Debug)]
pub enum ExecRootError {
    /// An expected entry is not there.
    Missing(String),
    /// Entries that should not be there, in the order listed.
    Unexpected(Vec<String>),
}

/// Whether `v[..end]` holds the text `s`.
fn holds(v: &Vec<String>, end: usize, s: &String) -> (r: bool)
    requires
        end <= v.len(),
    ensures
        r == texts(v@).take(end as int).contains(s@),
{
    let mut k: usize = 0;
    while k < end
        invariant
            k <= end <= v.len(),
            forall|j: int| 0 <= j < k ==> v[j]@ != s@,
        decreases end - k,
    {
        if v[k] == *s {
            assert(texts(v@).take(end as int)[k as int] == s@);
            return true;
        }
        k = k + 1;
    }
    assert forall|j: int| 0 <= j < end implies texts(v@).take(end as int)[j] != s@ by {
        assert(texts(v@).take(end as int)[j] == v[j]@);
    }
    false
}

/// Checks that `entries`, the names in the exec root, are exactly the build
/// script `script_name`, `root_file.txt`, `bazel-out` and `external`.
/// Reports the first expected entry that is missing, else the entries that
/// should not be there.
pub fn check_exec_root(entries: &Vec<String>, script_name: &str) -> (r: Result<(), ExecRootError>)
    ensures
        ({
            let names = texts(entries@);
            let expected = expected_entries(script_name@);
            let all_claimed = forall|i: int| 0 <= i < 4 ==> claims(names, expected, i);
            &&& r is Ok <==> exec_root_accepts(names, script_name@)
            &&& !all_claimed ==> r is Err && r->Err_0 is Missing
            &&& r is Err && r->Err_0 is Missing ==> exists|i: int|
                0 <= i < 4 && !#[trigger] claims(names, expected, i) && r->Err_0->Missing_0@
                    == expected[i]
                    && forall|j: int| 0 <= j < i ==> claims(names, expected, j)
            &&& r is Err && r->Err_0 is Unexpected ==> all_claimed && texts(
                r->Err_0->Unexpected_0@,
            ) == unexpected(names, expected)
        }),
{
    let ghost names = texts(entries@);
    let ghost expected_view = expected_entries(script_name@);
    let mut expected: Vec<String> = Vec::new();
    expected.push(String::from_str(script_name));
    expected.push(String::from_str("root_file.txt"));
    expected.push(String::from_str("bazel-out"));
    expected.push(String::from_str("external"));
    assert(texts(expected@) == expected_view);
    let mut i: usize = 0;
    while i < 4
        invariant
            i <= 4,
            expected.len() == 4,
            names == texts(entries@),
            texts(expected@) == expected_view,
            expected_view == expected_entries(script_name@),
            forall|j: int| 0 <= j < i ==> claims(names, expected_view, j),
        decreases 4 - i,
    {
        let name = &expected[i];
        assert(expected_view[i as int] == name@);
        if !holds(entries, entries.len(), name) || holds(&expected, i, name) {
            let missing = name.clone();
            proof {
                assert(texts(entries@).take(entries.len() as int) == names);
                assert(!claims(names, expected_view, i as int));
                assert(exists|m: int|
                    0 <= m < 4 && !#[trigger] claims(names, expected_view, m) && missing@
                        == expected_view[m]
                        && forall|j: int| 0 <= j < m ==> claims(names, expected_view, j));
            }
            return Err(ExecRootError::Missing(missing));
        }
        assert(texts(entries@).take(entries.len() as int) == names);
        i = i + 1;
    }
    let mut extra: Vec<String> = Vec::new();
    let mut k: usize = 0;
    while k < entries.len()
        invariant
            k <= entries.len(),
            expected.len() == 4,
            names == texts(entries@),
            texts(expected@) == expected_view,
            expected_view == expected_entries(script_name@),
            texts(extra@) == unexpected(names.take(k as int), expected_view),
        decreases entries.len() - k,
    {
        let entry = &entries[k];
        proof {
            assert(names.take(k + 1).drop_last() == names.take(k as int));
            assert(names.take(k + 1).last() == entry@);
            assert(texts(expected@).take(4) == expected_view);
        }
        if !holds(&expected, 4, entry) {
            let ghost before = extra@;
            extra.push(entry.clone());
            assert(texts(extra@) == texts(before).push(entry@));
        }
        k = k + 1;
    }
    assert(names.take(entries.len() as int) == names);
    if extra.len() == 0 {
        Ok(())
    } else {
        Err(ExecRootError::Unexpected(extra))
    }
}

} // verus!

//! Lookups in the option lists that the printing system reports for a printer.
use vstd::prelude::*;

use vstd::utf8::{encode_utf8, encode_utf8_decode_utf8};

verus! {

/// Whether two texts are the same.
pub(crate) fn same_text(a: &str, b: &str) -> (r: bool)
    ensures
        r == (a@ == b@),
{
    let x = a.as_bytes();
    let y = b.as_bytes();
    proof {
        encode_utf8_decode_utf8(a@);
        encode_utf8_decode_utf8(b@);
    }
    assert(a@ == b@ ==> x@ == y@);
    assert(x@ == y@ ==> a@ == b@);
    if x.len() != y.len() {
        return false;
    }
    let mut i: usize = 0;
    while i < x.len()
        invariant
            x@.len() == y@.len(),
            a@ == b@ ==> x@ == y@,
            x@ == y@ ==> a@ == b@,
            i <= x@.len(),
            forall|k: int| 0 <= k < i ==> x@[k] == y@[k],
        decreases x@.len() - i,
    {
        if x[i] != y[i] {
            assert(x@ != y@);
            return false;
        }
        i = i + 1;
    }
    assert(x@ =~= y@);
    true
}

/// The value of the first entry of `table`, from position `i` on, named `s`;
/// `default` when none is.
pub open spec fn first_value<T>(table: Seq<(&str, T)>, s: Seq<char>, default: T, i: nat) -> T
    decreases table.len() - i,
{
    if i >= table.len() {
        default
    } else if table[i as int].0@ == s {
        table[i as int].1
    } else {
        first_value(table, s, default, i + 1)
    }
}

/// The value of the first entry of `table` named `s`; the first entry's value
/// when none is.
pub fn option_map<T: Copy>(s: &str, table: &[(&str, T)]) -> (r: T)
    requires
        table@.len() > 0,
    ensures
        r == first_value(table@, s@, table@[0].1, 0),
{
    let mut i: usize = 0;
    while i < table.len()
        invariant
            i <= table@.len(),
            first_value(table@, s@, table@[0].1, 0) == first_value(
                table@,
                s@,
                table@[0].1,
                i as nat,
            ),
        decreases table@.len() - i,
    {
        if same_text(s, table[i].0) {
            return table[i].1;
        }
        i = i + 1;
    }
    table[0].1
}

/// A named option and its value, as the printing system lists it.
#[derive(Debug, Clone)]
pub struct NamedOption {
    pub name: Vec<u8>,
    pub value: String,
}

/// Byte-wise comparison: negative when `a` comes first, zero when equal,
/// positive when `b` comes first; a prefix comes first.
pub open spec fn compare_bytes(a: Seq<u8>, b: Seq<u8>) -> int
    decreases a.len(),
{
    if a.len() == 0 {
        if b.len() == 0 {
            0
        } else {
            -1
        }
    } else if b.len() == 0 {
        1
    } else if a[0] < b[0] {
        -1
    } else if a[0] > b[0] {
        1
    } else {
        compare_bytes(a.drop_first(), b.drop_first())
    }
}

/// Swapping the arguments of the comparison flips its sign, and it is zero
/// only for equal sequences.
pub proof fn lemma_compare_bytes(a: Seq<u8>, b: Seq<u8>)
    ensures
        compare_bytes(a, b) == -compare_bytes(b, a),
        compare_bytes(a, b) == 0 <==> a == b,
    decreases a.len(),
{
    if a.len() == 0 && b.len() == 0 {
        assert(a =~= b);
    } else if a.len() > 0 && b.len() > 0 && a[0] == b[0] {
        lemma_compare_bytes(a.drop_first(), b.drop_first());
        if a.drop_first() == b.drop_first() {
            assert(a =~= seq![a[0]] + a.drop_first());
            assert(b =~= seq![b[0]] + b.drop_first());
        }
    }
}

/// Whether the options are in strictly increasing byte order of their names.
pub open spec fn sorted_by_name(options: Seq<NamedOption>) -> bool {
    forall|i: int, j: int|
        0 <= i < j < options.len() ==> compare_bytes(options[i].name@, options[j].name@) < 0
}

/// The comparison of `a` with `b`, as `compare_bytes` gives it.
fn compare(a: &[u8], b: &[u8]) -> (r: i8)
    ensures
        r as int == compare_bytes(a@, b@),
{
    let mut i: usize = 0;
    assert(a@.skip(0) =~= a@);
    assert(b@.skip(0) =~= b@);
    while i < a.len() && i < b.len()
        invariant
            i <= a@.len(),
            i <= b@.len(),
            compare_bytes(a@, b@) == compare_bytes(a@.skip(i as int), b@.skip(i as int)),
        decreases a@.len() - i,
    {
        if a[i] < b[i] {
            return -1;
        }
        if a[i] > b[i] {
            return 1;
        }
        assert(a@.skip(i as int).drop_first() =~= a@.skip(i + 1));
        assert(b@.skip(i as int).drop_first() =~= b@.skip(i + 1));
        i = i + 1;
    }
    if i < a.len() {
        1
    } else if i < b.len() {
        -1
    } else {
        0
    }
}

/// The position of the option named `name`, by binary search. Found only if
/// present; where the options are sorted by name, found whenever present.
pub fn find_option(name: &[u8], options: &[NamedOption]) -> (r: Option<usize>)
    ensures
        r matches Some(i) ==> i < options@.len() && options@[i as int].name@ == name@,
        r is None && sorted_by_name(options@) ==> forall|j: int|
            0 <= j < options@.len() ==> options@[j].name@ != name@,
{
    let mut lo: usize = 0;
    let mut hi: usize = options.len();
    while lo < hi
        invariant
            lo <= hi <= options@.len(),
            sorted_by_name(options@) ==> forall|j: int|
                0 <= j < lo ==> options@[j].name@ != name@,
            sorted_by_name(options@) ==> forall|j: int|
                hi <= j < options@.len() ==> options@[j].name@ != name@,
        decreases hi - lo,
    {
        let mid = lo + (hi - lo) / 2;
        let c = compare(options[mid].name.as_slice(), name);
        proof {
            lemma_compare_bytes(options@[mid as int].name@, name@);
        }
        if c == 0 {
            return Some(mid);
        } else if c < 0 {
            proof {
                assert forall|j: int| 0 <= j <= mid && sorted_by_name(options@) implies options@[
                    j
                ].name@ != name@ by {
                    if j < mid {
                        lemma_compare_bytes(options@[j].name@, options@[mid as int].name@);
                    }
                }
            }
            lo = mid + 1;
        } else {
            proof {
                assert forall|j: int|
                    mid <= j < options@.len() && sorted_by_name(options@) implies options@[
                    j
                ].name@ != name@ by {
                    if j > mid {
                        lemma_compare_bytes(options@[mid as int].name@, options@[j].name@);
                    }
                }
            }
            hi = mid;
        }
    }
    None
}

} // verus!

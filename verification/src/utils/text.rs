use vstd::prelude::*;

verus! {

/// The character of a decimal digit `d` (`0 <= d < 10`).
pub open spec fn digit_char(d: nat) -> char {
    ('0' as nat + d) as char
}

/// The decimal representation of `n`, as `u64`'s `Display` prints it.
pub open spec fn decimal(n: nat) -> Seq<char>
    decreases n,
{
    if n < 10 {
        seq![digit_char(n)]
    } else {
        decimal(n / 10).push(digit_char(n % 10))
    }
}

/// The items joined with `sep` between each two neighbours.
pub open spec fn seq_join(items: Seq<Seq<char>>, sep: Seq<char>) -> Seq<char>
    decreases items.len(),
{
    if items.len() == 0 {
        Seq::empty()
    } else if items.len() == 1 {
        items[0]
    } else {
        seq_join(items.drop_last(), sep) + sep + items.last()
    }
}

/// The views of a vector of strings.
pub open spec fn string_views(items: Seq<String>) -> Seq<Seq<char>> {
    items.map_values(|s: String| s@)
}

/// Calls `String::push` of std, taken on trust: the string afterwards is
/// the old one with `c` appended at its end.
#[verifier::external_body]
pub fn push_char(s: &mut String, c: char)
    ensures
        final(s)@ == old(s)@.push(c),
{
    s.push(c);
}

/// The character of the decimal digit `d`.
pub fn digit_to_char(d: u64) -> (c: char)
    requires
        d < 10,
    ensures
        c == digit_char(d as nat),
{
    let b: u8 = 48u8 + (d as u8);
    let c = b as char;
    c
}

/// Formats `n` in decimal, as `n.to_string()` does.
pub fn u64_to_decimal(n: u64) -> (r: String)
    ensures
        r@ == decimal(n as nat),
    decreases n,
{
    if n < 10 {
        let mut s = String::new();
        push_char(&mut s, digit_to_char(n));
        s
    } else {
        let mut s = u64_to_decimal(n / 10);
        push_char(&mut s, digit_to_char(n % 10));
        s
    }
}

/// Joins the strings with `sep` between each two neighbours
/// (`Itertools::join` on strings).
pub fn join_strings(items: &Vec<String>, sep: &str) -> (r: String)
    ensures
        r@ == seq_join(string_views(items@), sep@),
{
    let mut r = String::new();
    let ghost views = string_views(items@);
    let n = items.len();
    let mut i: usize = 0;
    while i < n
        invariant
            n == items.len(),
            i <= n,
            views == string_views(items@),
            r@ == seq_join(views.take(i as int), sep@),
        decreases n - i,
    {
        proof {
            assert(views.take(i + 1).drop_last() =~= views.take(i as int));
        }
        if i != 0 {
            r.append(sep);
        }
        r.append(items[i].as_str());
        i = i + 1;
    }
    proof {
        assert(views.take(n as int) =~= views);
    }
    r
}

/// The characters of `s` other than `c`, in their order.
pub open spec fn without_char(s: Seq<char>, c: char) -> Seq<char> {
    s.filter(other_than(c))
}

/// Holds of the characters other than `c`.
pub open spec fn other_than(c: char) -> spec_fn(char) -> bool {
    |x: char| x != c
}

/// Nothing that is removed is left, and removing again changes nothing.
pub proof fn lemma_without_char(s: Seq<char>, c: char)
    ensures
        !without_char(s, c).contains(c),
        without_char(without_char(s, c), c) == without_char(s, c),
    decreases s.len(),
{
    reveal_with_fuel(Seq::<_>::filter, 1);
    if s.len() > 0 {
        lemma_without_char(s.drop_last(), c);
        let rest = without_char(s.drop_last(), c);
        if s.last() != c {
            assert(without_char(s, c) == rest.push(s.last()));
            assert(rest.push(s.last()).drop_last() =~= rest);
            assert forall|i: int| 0 <= i < rest.len() + 1 implies #[trigger] rest.push(s.last())[i]
                != c by {
                if i < rest.len() {
                    assert(rest.contains(rest[i]) ==> rest[i] != c);
                }
            }
        }
    }
}

/// Removes every occurrence of `c` from `s` (`str::replace(c, "")`).
pub fn remove_char(s: &String, c: char) -> (r: String)
    ensures
        r@ == without_char(s@, c),
{
    broadcast use vstd::string::group_string_axioms;

    let ghost pred = other_than(c);
    let mut r = String::new();
    for x in it: s.as_str().chars()
        invariant
            pred == other_than(c),
            it.seq() == s@,
            r@ == s@.take(it.index()).filter(pred),
    {
        proof {
            reveal_with_fuel(Seq::<_>::filter, 1);
            assert(s@.take(it.index() + 1).drop_last() =~= s@.take(it.index()));
        }
        if x != c {
            push_char(&mut r, x);
        }
    }
    proof {
        assert(s@.take(s@.len() as int) =~= s@);
    }
    r
}

/// The index of the first string of `items` equal to `target`, if any.
pub fn first_index_of(items: &Vec<String>, target: &String) -> (r: Option<usize>)
    ensures
        match r {
            Some(i) => i < items@.len() && items@[i as int]@ == target@ && forall|j: int|
                0 <= j < i ==> items@[j]@ != target@,
            None => forall|j: int| 0 <= j < items@.len() ==> items@[j]@ != target@,
        },
{
    let n = items.len();
    let mut i: usize = 0;
    while i < n
        invariant
            n == items.len(),
            i <= n,
            forall|j: int| 0 <= j < i ==> items@[j]@ != target@,
        decreases n - i,
    {
        if items[i] == *target {
            return Some(i);
        }
        i = i + 1;
    }
    None
}

/// Whether `id` occurs in `ids`.
pub fn contains_id(ids: &Vec<u64>, id: u64) -> (r: bool)
    ensures
        r == ids@.contains(id),
{
    let n = ids.len();
    let mut i: usize = 0;
    while i < n
        invariant
            n == ids.len(),
            i <= n,
            forall|j: int| 0 <= j < i ==> ids@[j] != id,
        decreases n - i,
    {
        if ids[i] == id {
            return true;
        }
        i = i + 1;
    }
    false
}

} // verus!

//! Small verified text-building helpers: joining fragments with a
//! separator and rendering unsigned integers in decimal. The statement
//! assembler and the predicate compiler state their outputs in terms of
//! the spec functions defined here.

use vstd::prelude::*;
use vstd::string::StringExecFns;

verus! {

/// The decimal digit character for `d`, which must be below ten.
pub open spec fn digit_char(d: nat) -> char {
    if d == 0 {
        '0'
    } else if d == 1 {
        '1'
    } else if d == 2 {
        '2'
    } else if d == 3 {
        '3'
    } else if d == 4 {
        '4'
    } else if d == 5 {
        '5'
    } else if d == 6 {
        '6'
    } else if d == 7 {
        '7'
    } else if d == 8 {
        '8'
    } else {
        '9'
    }
}

/// The decimal rendering of `n`, most significant digit first, with no
/// leading zeros (a single `'0'` for zero itself).
pub open spec fn dec_str(n: nat) -> Seq<char>
    decreases n,
{
    if n < 10 {
        seq![digit_char(n)]
    } else {
        dec_str(n / 10).push(digit_char(n % 10))
    }
}

fn digit_literal(d: u32) -> (r: &'static str)
    requires
        d < 10,
    ensures
        r@ == seq![digit_char(d as nat)],
{
    proof {
        reveal_strlit("0");
        reveal_strlit("1");
        reveal_strlit("2");
        reveal_strlit("3");
        reveal_strlit("4");
        reveal_strlit("5");
        reveal_strlit("6");
        reveal_strlit("7");
        reveal_strlit("8");
        reveal_strlit("9");
        assert("0"@ =~= seq!['0']);
        assert("1"@ =~= seq!['1']);
        assert("2"@ =~= seq!['2']);
        assert("3"@ =~= seq!['3']);
        assert("4"@ =~= seq!['4']);
        assert("5"@ =~= seq!['5']);
        assert("6"@ =~= seq!['6']);
        assert("7"@ =~= seq!['7']);
        assert("8"@ =~= seq!['8']);
        assert("9"@ =~= seq!['9']);
    }
    match d {
        0 => "0",
        1 => "1",
        2 => "2",
        3 => "3",
        4 => "4",
        5 => "5",
        6 => "6",
        7 => "7",
        8 => "8",
        _ => "9",
    }
}

/// Renders `n` in decimal, exactly as `dec_str` describes.
pub fn u32_to_string(n: u32) -> (r: String)
    ensures
        r@ == dec_str(n as nat),
    decreases n,
{
    if n < 10 {
        digit_literal(n).to_owned()
    } else {
        let mut s = u32_to_string(n / 10);
        let d = digit_literal(n % 10);
        s.append(d);
        proof {
            assert(dec_str((n / 10) as nat).push(digit_char((n % 10) as nat)) =~= dec_str(
                (n / 10) as nat,
            ) + seq![digit_char((n % 10) as nat)]);
        }
        s
    }
}

/// `parts` joined in order, with `sep` between consecutive elements and
/// nothing added around a single element or an empty list.
pub open spec fn join_seqs(parts: Seq<Seq<char>>, sep: Seq<char>) -> Seq<char>
    decreases parts.len(),
{
    if parts.len() == 0 {
        Seq::empty()
    } else if parts.len() == 1 {
        parts[0]
    } else {
        parts[0] + sep + join_seqs(parts.drop_first(), sep)
    }
}

/// Appending one element to a joined list appends a separator and the
/// element, except when the list was empty.
pub proof fn lemma_join_seqs_push(parts: Seq<Seq<char>>, sep: Seq<char>, last: Seq<char>)
    ensures
        join_seqs(parts.push(last), sep) == if parts.len() == 0 {
            last
        } else {
            (join_seqs(parts, sep) + sep + last)
        },
    decreases parts.len(),
{
    if parts.len() == 0 {
        assert(parts.push(last).len() == 1);
        assert(parts.push(last)[0] == last);
    } else {
        assert(parts.push(last).drop_first() =~= parts.drop_first().push(last));
        lemma_join_seqs_push(parts.drop_first(), sep, last);
        assert(parts.push(last)[0] == parts[0]);
        if parts.len() == 1 {
            assert(join_seqs(parts, sep) == parts[0]);
        }
    }
}

/// The number of `?` placeholders in a fragment.
pub open spec fn count_placeholders(s: Seq<char>) -> nat
    decreases s.len(),
{
    if s.len() == 0 {
        0
    } else {
        (if s[0] == '?' {
            1nat
        } else {
            0nat
        }) + count_placeholders(s.drop_first())
    }
}

/// The number of `?` placeholders across a list of fragments.
pub open spec fn total_placeholders(parts: Seq<Seq<char>>) -> nat
    decreases parts.len(),
{
    if parts.len() == 0 {
        0
    } else {
        count_placeholders(parts[0]) + total_placeholders(parts.drop_first())
    }
}

/// Placeholder counting distributes over concatenation.
pub proof fn lemma_count_placeholders_add(a: Seq<char>, b: Seq<char>)
    ensures
        count_placeholders(a + b) == count_placeholders(a) + count_placeholders(b),
    decreases a.len(),
{
    if a.len() == 0 {
        assert(a + b =~= b);
    } else {
        assert((a + b).drop_first() =~= a.drop_first() + b);
        assert((a + b)[0] == a[0]);
        lemma_count_placeholders_add(a.drop_first(), b);
    }
}

/// Totals distribute over concatenation of fragment lists.
pub proof fn lemma_total_placeholders_add(a: Seq<Seq<char>>, b: Seq<Seq<char>>)
    ensures
        total_placeholders(a + b) == total_placeholders(a) + total_placeholders(b),
    decreases a.len(),
{
    if a.len() == 0 {
        assert(a + b =~= b);
    } else {
        assert((a + b).drop_first() =~= a.drop_first() + b);
        assert((a + b)[0] == a[0]);
        lemma_total_placeholders_add(a.drop_first(), b);
    }
}

/// Joining with a placeholder-free separator preserves the total
/// placeholder count.
pub proof fn lemma_join_seqs_placeholders(parts: Seq<Seq<char>>, sep: Seq<char>)
    requires
        count_placeholders(sep) == 0,
    ensures
        count_placeholders(join_seqs(parts, sep)) == total_placeholders(parts),
    decreases parts.len(),
{
    if parts.len() == 0 {
    } else if parts.len() == 1 {
        assert(total_placeholders(parts.drop_first()) == 0);
    } else {
        lemma_join_seqs_placeholders(parts.drop_first(), sep);
        lemma_count_placeholders_add(parts[0], sep);
        lemma_count_placeholders_add(parts[0] + sep, join_seqs(parts.drop_first(), sep));
        assert(parts[0] + sep + join_seqs(parts.drop_first(), sep) == (parts[0] + sep)
            + join_seqs(parts.drop_first(), sep));
    }
}

/// Joins the given fragments with the separator, exactly as `join_seqs`
/// describes on the fragments' views.
pub fn join_with(parts: &Vec<String>, sep: &str) -> (r: String)
    ensures
        r@ == join_seqs(parts.deep_view(), sep@),
{
    let ghost dv = parts.deep_view();
    let mut r = String::new();
    let mut i: usize = 0;
    while i < parts.len()
        invariant
            i <= parts.len(),
            dv == parts.deep_view(),
            dv.len() == parts.len(),
            r@ == join_seqs(dv.take(i as int), sep@),
        decreases parts.len() - i,
    {
        if i > 0 {
            r.append(sep);
        }
        r.append(parts[i].as_str());
        proof {
            assert(dv.take(i + 1) =~= dv.take(i as int).push(dv[i as int]));
            lemma_join_seqs_push(dv.take(i as int), sep@, dv[i as int]);
            assert(dv.take(i as int).len() == i as int);
        }
        i += 1;
    }
    proof {
        assert(dv.take(parts.len() as int) =~= dv);
    }
    r
}

} // verus!

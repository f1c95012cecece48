use vstd::prelude::*;

verus! {

/// The octal digits that have a symbolic triplet.
pub open spec fn valid_digit(c: char) -> bool {
    c == '0' || c == '1' || c == '2' || c == '4' || c == '5' || c == '6' || c == '7'
}

/// Every character of `s` is a valid permission digit.
pub open spec fn all_valid_digits(s: Seq<char>) -> bool {
    forall|i: int| 0 <= i < s.len() ==> valid_digit(#[trigger] s[i])
}

/// The read/write/execute triplet of one permission digit.
pub open spec fn triplet(c: char) -> Seq<char> {
    if c == '7' {
        seq!['r', 'w', 'x']
    } else if c == '6' {
        seq!['r', 'w', '-']
    } else if c == '5' {
        seq!['r', '-', 'x']
    } else if c == '4' {
        seq!['r', '-', '-']
    } else if c == '2' {
        seq!['-', 'w', '-']
    } else if c == '1' {
        seq!['-', '-', 'x']
    } else {
        seq!['-', '-', '-']
    }
}

/// The triplets of all digits of `s`, concatenated in order.
pub open spec fn rwx_of(s: Seq<char>) -> Seq<char>
    decreases s.len(),
{
    if s.len() == 0 {
        Seq::empty()
    } else {
        rwx_of(s.drop_last()) + triplet(s.last())
    }
}

fn triplet_str(c: char) -> (t: &'static str)
    requires
        valid_digit(c),
    ensures
        t@ == triplet(c),
{
    if c == '7' {
        proof { reveal_strlit("rwx"); }
        "rwx"
    } else if c == '6' {
        proof { reveal_strlit("rw-"); }
        "rw-"
    } else if c == '5' {
        proof { reveal_strlit("r-x"); }
        "r-x"
    } else if c == '4' {
        proof { reveal_strlit("r--"); }
        "r--"
    } else if c == '2' {
        proof { reveal_strlit("-w-"); }
        "-w-"
    } else if c == '1' {
        proof { reveal_strlit("--x"); }
        "--x"
    } else {
        proof { reveal_strlit("---"); }
        "---"
    }
}

/// Translates a string of octal permission digits into its symbolic form,
/// one `rwx` triplet per digit, in the order of the digits.
pub fn oct_to_rwx_permissions(oct: &String) -> (r: String)
    requires
        all_valid_digits(oct@),
    ensures
        r@ == rwx_of(oct@),
{
    let s = oct.as_str();
    let n = s.unicode_len();
    let mut result = String::new();
    let mut i: usize = 0;
    while i < n
        invariant
            s@ == oct@,
            n == oct@.len(),
            i <= n,
            all_valid_digits(oct@),
            result@ == rwx_of(oct@.subrange(0, i as int)),
        decreases n - i,
    {
        let c = s.get_char(i);
        let t = triplet_str(c);
        result.append(t);
        proof {
            assert(oct@.subrange(0, i + 1).drop_last() =~= oct@.subrange(0, i as int));
        }
        i = i + 1;
    }
    proof {
        assert(oct@.subrange(0, n as int) =~= oct@);
    }
    result
}

/// A string of three valid digits translates to exactly nine characters:
/// the owner, group and other triplets, in that order.
pub proof fn lemma_three_digit_translation(s: Seq<char>)
    requires
        s.len() == 3,
        all_valid_digits(s),
    ensures
        rwx_of(s) == triplet(s[0]) + triplet(s[1]) + triplet(s[2]),
        rwx_of(s).len() == 9,
{
    assert(s.drop_last().drop_last().drop_last() =~= Seq::<char>::empty());
    assert(s.drop_last().drop_last().last() == s[0]);
    assert(s.drop_last().last() == s[1]);
    assert(rwx_of(Seq::<char>::empty()) =~= Seq::<char>::empty());
    assert(rwx_of(s.drop_last().drop_last()) =~= triplet(s[0]));
    assert(rwx_of(s.drop_last()) =~= triplet(s[0]) + triplet(s[1]));
    assert(rwx_of(s) =~= triplet(s[0]) + triplet(s[1]) + triplet(s[2]));
}

} // verus!

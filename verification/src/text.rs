use vstd::prelude::*;

verus! {

/// Character-for-character equality of two string slices.
pub fn str_eq(a: &str, b: &str) -> (r: bool)
    ensures
        r == (a@ == b@),
{
    let an = a.unicode_len();
    let bn = b.unicode_len();
    if an != bn {
        proof {
            assert(a@ != b@) by {
                assert(a@.len() != b@.len());
            }
        }
        return false;
    }
    let mut i: usize = 0;
    while i < an
        invariant
            i <= an,
            an == a@.len(),
            an == b@.len(),
            forall|j: int| 0 <= j < i ==> a@[j] == b@[j],
        decreases an - i,
    {
        if a.get_char(i) != b.get_char(i) {
            return false;
        }
        i += 1;
    }
    proof {
        assert(a@ =~= b@);
    }
    true
}

/// The lowercase character that denotes a value as a hexadecimal digit.
pub open spec fn hex_digit_char(d: u8) -> char
    recommends
        d < 16,
{
    if d == 0 {
        '0'
    } else if d == 1 {
        '1'
    } else if d == 2 {
        '2'
    } else if d == 3 {
        '3'
    } else if d == 4 {
        '4'
    } else if d == 5 {
        '5'
    } else if d == 6 {
        '6'
    } else if d == 7 {
        '7'
    } else if d == 8 {
        '8'
    } else if d == 9 {
        '9'
    } else if d == 10 {
        'a'
    } else if d == 11 {
        'b'
    } else if d == 12 {
        'c'
    } else if d == 13 {
        'd'
    } else if d == 14 {
        'e'
    } else {
        'f'
    }
}

/// The two lowercase hex digits that denote one byte.
pub open spec fn byte_text(b: u8) -> Seq<char> {
    seq![hex_digit_char(b / 16), hex_digit_char(b % 16)]
}

/// The decimal text of a number, most significant digit first, with no
/// leading zeros (a lone zero for zero).
pub open spec fn dec_text(n: nat) -> Seq<char>
    decreases n,
{
    if n < 10 {
        seq![hex_digit_char(n as u8)]
    } else {
        dec_text(n / 10) + seq![hex_digit_char((n % 10) as u8)]
    }
}

/// The lowercase hex text of a byte string read back to front: the
/// canonical display order of a transaction id.
pub open spec fn rev_hex_text(t: Seq<u8>) -> Seq<char>
    decreases t.len(),
{
    if t.len() == 0 {
        Seq::<char>::empty()
    } else {
        byte_text(t.last()) + rev_hex_text(t.drop_last())
    }
}

/// Peeling the first byte off the reversed-hex text: the text of a
/// non-empty byte string is the text of its tail followed by the two
/// digits of its head.
pub proof fn lemma_rev_hex_text_first(t: Seq<u8>)
    requires
        t.len() > 0,
    ensures
        rev_hex_text(t) == rev_hex_text(t.drop_first()) + byte_text(t.first()),
    decreases t.len(),
{
    if t.len() == 1 {
        assert(t.drop_last() =~= Seq::<u8>::empty());
        assert(t.drop_first() =~= Seq::<u8>::empty());
        assert(rev_hex_text(t.drop_first()) + byte_text(t.first()) =~= byte_text(t.last())
            + rev_hex_text(t.drop_last()));
    } else {
        lemma_rev_hex_text_first(t.drop_last());
        assert(t.drop_last().first() == t.first());
        assert(t.drop_last().drop_first() =~= t.drop_first().drop_last());
        assert(t.drop_first().last() == t.last());
        assert(byte_text(t.last()) + (rev_hex_text(t.drop_first().drop_last()) + byte_text(
            t.first(),
        )) =~= (byte_text(t.drop_first().last()) + rev_hex_text(t.drop_first().drop_last()))
            + byte_text(t.first()));
    }
}

/// Appends the single lowercase digit that denotes `d`.
pub fn push_hex_digit(s: &mut String, d: u8)
    requires
        d < 16,
    ensures
        final(s)@ == old(s)@ + seq![hex_digit_char(d)],
{
    match d {
        0 => {
            s.append("0");
            proof {
                reveal_strlit("0");
                assert(s@ =~= old(s)@ + seq![hex_digit_char(d)]);
            }
        },
        1 => {
            s.append("1");
            proof {
                reveal_strlit("1");
                assert(s@ =~= old(s)@ + seq![hex_digit_char(d)]);
            }
        },
        2 => {
            s.append("2");
            proof {
                reveal_strlit("2");
                assert(s@ =~= old(s)@ + seq![hex_digit_char(d)]);
            }
        },
        3 => {
            s.append("3");
            proof {
                reveal_strlit("3");
                assert(s@ =~= old(s)@ + seq![hex_digit_char(d)]);
            }
        },
        4 => {
            s.append("4");
            proof {
                reveal_strlit("4");
                assert(s@ =~= old(s)@ + seq![hex_digit_char(d)]);
            }
        },
        5 => {
            s.append("5");
            proof {
                reveal_strlit("5");
                assert(s@ =~= old(s)@ + seq![hex_digit_char(d)]);
            }
        },
        6 => {
            s.append("6");
            proof {
                reveal_strlit("6");
                assert(s@ =~= old(s)@ + seq![hex_digit_char(d)]);
            }
        },
        7 => {
            s.append("7");
            proof {
                reveal_strlit("7");
                assert(s@ =~= old(s)@ + seq![hex_digit_char(d)]);
            }
        },
        8 => {
            s.append("8");
            proof {
                reveal_strlit("8");
                assert(s@ =~= old(s)@ + seq![hex_digit_char(d)]);
            }
        },
        9 => {
            s.append("9");
            proof {
                reveal_strlit("9");
                assert(s@ =~= old(s)@ + seq![hex_digit_char(d)]);
            }
        },
        10 => {
            s.append("a");
            proof {
                reveal_strlit("a");
                assert(s@ =~= old(s)@ + seq![hex_digit_char(d)]);
            }
        },
        11 => {
            s.append("b");
            proof {
                reveal_strlit("b");
                assert(s@ =~= old(s)@ + seq![hex_digit_char(d)]);
            }
        },
        12 => {
            s.append("c");
            proof {
                reveal_strlit("c");
                assert(s@ =~= old(s)@ + seq![hex_digit_char(d)]);
            }
        },
        13 => {
            s.append("d");
            proof {
                reveal_strlit("d");
                assert(s@ =~= old(s)@ + seq![hex_digit_char(d)]);
            }
        },
        14 => {
            s.append("e");
            proof {
                reveal_strlit("e");
                assert(s@ =~= old(s)@ + seq![hex_digit_char(d)]);
            }
        },
        15 => {
            s.append("f");
            proof {
                reveal_strlit("f");
                assert(s@ =~= old(s)@ + seq![hex_digit_char(d)]);
            }
        },
        _ => {
            proof {
                assert(false);
            }
        },
    }
}

/// Appends the decimal text of `n`, most significant digit first.
pub fn push_dec_u64(s: &mut String, n: u64)
    ensures
        final(s)@ == old(s)@ + dec_text(n as nat),
    decreases n,
{
    if n >= 10 {
        push_dec_u64(s, n / 10);
    }
    push_hex_digit(s, (n % 10) as u8);
    proof {
        if n >= 10 {
            assert(s@ =~= old(s)@ + dec_text(n as nat));
        } else {
            assert(s@ =~= old(s)@ + dec_text(n as nat));
        }
    }
}

/// Appends the lowercase hex text of the 32 bytes read back to front.
pub fn push_rev_hex32(s: &mut String, t: &[u8; 32])
    ensures
        final(s)@ == old(s)@ + rev_hex_text(t@),
{
    proof {
        assert(t@.subrange(32, 32) =~= Seq::<u8>::empty());
        assert(s@ =~= old(s)@ + rev_hex_text(t@.subrange(32, 32)));
    }
    let mut i: usize = 0;
    while i < 32
        invariant
            i <= 32,
            s@ == old(s)@ + rev_hex_text(t@.subrange(32 - i, 32)),
        decreases 32 - i,
    {
        let b = t[31 - i];
        let ghost pre = s@;
        push_hex_digit(s, b / 16);
        push_hex_digit(s, b % 16);
        proof {
            assert(s@ =~= pre + byte_text(b));
            let sub = t@.subrange(31 - i, 32);
            lemma_rev_hex_text_first(sub);
            assert(sub.drop_first() =~= t@.subrange(32 - i, 32));
            assert(sub.first() == t@[31 - i]);
            assert(s@ =~= old(s)@ + rev_hex_text(t@.subrange(31 - i, 32)));
        }
        i += 1;
    }
    proof {
        assert(t@.subrange(0, 32) =~= t@);
    }
}

} // verus!

use vstd::prelude::*;

use crate::list::List;

verus! {

/// The character for one decimal digit.
pub open spec fn digit_char(d: int) -> char {
    if d == 0 {
        '0'
    } else if d == 1 {
        '1'
    } else if d == 2 {
        '2'
    } else if d == 3 {
        '3'
    } else if d == 4 {
        '4'
    } else if d == 5 {
        '5'
    } else if d == 6 {
        '6'
    } else if d == 7 {
        '7'
    } else if d == 8 {
        '8'
    } else {
        '9'
    }
}

/// The decimal digits of `n`, most significant first.
pub open spec fn dec_digits(n: int) -> Seq<char>
    decreases n,
{
    if n < 10 {
        seq![digit_char(n)]
    } else {
        dec_digits(n / 10) + seq![digit_char(n % 10)]
    }
}

/// The rendering of every element after the first: a `, ` separator before
/// each one.
pub open spec fn render_tail(s: Seq<u64>) -> Seq<char>
    decreases s.len(),
{
    if s.len() == 0 {
        Seq::empty()
    } else {
        seq![',', ' '] + dec_digits(s[0] as int) + render_tail(s.skip(1))
    }
}

/// The elements of `s` in order, separated by `, `.
pub open spec fn render_elems(s: Seq<u64>) -> Seq<char> {
    if s.len() == 0 {
        Seq::empty()
    } else {
        dec_digits(s[0] as int) + render_tail(s.skip(1))
    }
}

/// The full rendering: the elements in order, separated by `, `, between
/// `[` and `]`.
pub open spec fn render_list(s: Seq<u64>) -> Seq<char> {
    seq!['['] + render_elems(s) + seq![']']
}

/// The empty sequence renders as exactly `[]`.
pub proof fn lemma_render_empty()
    ensures
        render_list(Seq::<u64>::empty()) == seq!['[', ']'],
{
    assert(render_list(Seq::<u64>::empty()) =~= seq!['[', ']']);
}

/// A single element renders as exactly `[`, its own decimal digits, `]`.
pub proof fn lemma_render_singleton(x: u64)
    ensures
        render_list(seq![x]) == seq!['['] + dec_digits(x as int) + seq![']'],
{
    assert(seq![x].skip(1) =~= Seq::<u64>::empty());
}

/// The text of one decimal digit.
fn digit_str(d: u64) -> (r: &'static str)
    requires
        d < 10,
    ensures
        r@ == seq![digit_char(d as int)],
{
    if d == 0 {
        proof {
            reveal_strlit("0");
            assert("0"@ =~= seq![digit_char(0)]);
        }
        "0"
    } else if d == 1 {
        proof {
            reveal_strlit("1");
            assert("1"@ =~= seq![digit_char(1)]);
        }
        "1"
    } else if d == 2 {
        proof {
            reveal_strlit("2");
            assert("2"@ =~= seq![digit_char(2)]);
        }
        "2"
    } else if d == 3 {
        proof {
            reveal_strlit("3");
            assert("3"@ =~= seq![digit_char(3)]);
        }
        "3"
    } else if d == 4 {
        proof {
            reveal_strlit("4");
            assert("4"@ =~= seq![digit_char(4)]);
        }
        "4"
    } else if d == 5 {
        proof {
            reveal_strlit("5");
            assert("5"@ =~= seq![digit_char(5)]);
        }
        "5"
    } else if d == 6 {
        proof {
            reveal_strlit("6");
            assert("6"@ =~= seq![digit_char(6)]);
        }
        "6"
    } else if d == 7 {
        proof {
            reveal_strlit("7");
            assert("7"@ =~= seq![digit_char(7)]);
        }
        "7"
    } else if d == 8 {
        proof {
            reveal_strlit("8");
            assert("8"@ =~= seq![digit_char(8)]);
        }
        "8"
    } else {
        proof {
            reveal_strlit("9");
            assert("9"@ =~= seq![digit_char(9)]);
        }
        "9"
    }
}

/// The decimal text of `n`, most significant digit first.
pub fn u64_to_string(n: u64) -> (r: String)
    ensures
        r@ == dec_digits(n as int),
    decreases n,
{
    if n < 10 {
        String::from_str(digit_str(n))
    } else {
        let mut r = u64_to_string(n / 10);
        r.append(digit_str(n % 10));
        r
    }
}

impl List<u64> {
    /// Renders the list as `[e1, e2, ..., en]`: the elements in traversal
    /// order, in decimal, separated by `, `; the empty list as `[]`.
    pub fn debug_string(&self) -> (r: String)
        ensures
            r@ == render_list(self@),
    {
        let mut out = String::from_str("[");
        proof {
            reveal_strlit("[");
            assert(out@ =~= seq!['[']);
        }
        let mut it = self.iter();
        match it.next() {
            None => {
                proof {
                    assert(out@ =~= seq!['['] + render_elems(self@));
                }
            },
            Some(value) => {
                let digits = u64_to_string(*value);
                out.append(digits.as_str());
                proof {
                    assert(out@ + render_tail(it@) =~= seq!['['] + render_elems(self@));
                }
                loop
                    invariant
                        out@ + render_tail(it@) == seq!['['] + render_elems(self@),
                    ensures
                        out@ == seq!['['] + render_elems(self@),
                    decreases it@.len(),
                {
                    let ghost rest = it@;
                    match it.next() {
                        None => {
                            proof {
                                assert(render_tail(rest) =~= Seq::<char>::empty());
                                assert(out@ =~= seq!['['] + render_elems(self@));
                            }
                            break;
                        },
                        Some(value) => {
                            out.append(", ");
                            let digits = u64_to_string(*value);
                            out.append(digits.as_str());
                            proof {
                                reveal_strlit(", ");
                                assert(", "@ =~= seq![',', ' ']);
                                assert(out@ + render_tail(it@) =~= seq!['['] + render_elems(
                                    self@,
                                ));
                            }
                        },
                    }
                }
            },
        }
        out.append("]");
        proof {
            reveal_strlit("]");
            assert("]"@ =~= seq![']']);
            assert(out@ =~= render_list(self@));
        }
        out
    }
}

} // verus!

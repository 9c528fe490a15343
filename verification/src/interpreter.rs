//! An infix-to-postfix interpreter over single-digit terms: the input
//! alternates digits and `+`/`-` operators, and the output lists each term
//! followed by its operator.

use vstd::prelude::*;
use vstd::string::StrSliceExecFns;

verus! {

/// A decimal digit.
pub open spec fn is_digit_char(c: char) -> bool {
    48 <= c as u32 <= 57
}

/// An additive operator.
pub open spec fn is_op_char(c: char) -> bool {
    c == '+' || c == '-'
}

/// An infix expression the interpreter accepts: digits at even positions,
/// operators at odd ones, ending on a digit.
pub open spec fn well_formed_infix(s: Seq<char>) -> bool {
    &&& s.len() % 2 == 1
    &&& forall|i: int|
        0 <= i < s.len() ==> (if i % 2 == 0 {
            is_digit_char(#[trigger] s[i])
        } else {
            is_op_char(s[i])
        })
}

/// The postfix rendering: the first digit, then each further digit followed
/// by the operator before it.
pub open spec fn postfix_of(s: Seq<char>) -> Seq<char>
    decreases s.len(),
{
    if s.len() < 2 {
        s
    } else {
        postfix_of(s.take(s.len() - 2)) + seq![s[s.len() - 1], s[s.len() - 2]]
    }
}

/// Relies on `String::push`: appends exactly the one character.
#[verifier::external_body]
fn push_char(s: &mut String, c: char)
    ensures
        final(s)@ == old(s)@.push(c),
{
    s.push(c);
}

/// A cursor over an infix expression.
pub struct Interpreter<'a> {
    s: &'a str,
    pos: usize,
}

impl<'a> Interpreter<'a> {
    /// The cursor never passes the end of the input.
    pub closed spec fn wf(&self) -> bool {
        self.pos <= self.s@.len()
    }

    /// The whole input expression.
    pub closed spec fn input(&self) -> Seq<char> {
        self.s@
    }

    /// The input still to be read.
    pub closed spec fn remaining(&self) -> Seq<char> {
        self.s@.skip(self.pos as int)
    }

    /// A cursor at the start of the expression.
    pub fn new(infix: &'a str) -> (it: Interpreter<'a>)
        ensures
            it.wf(),
            it.remaining() == infix@,
    {
        let it = Interpreter { s: infix, pos: 0 };
        proof {
            assert(it.remaining() =~= infix@);
        }
        it
    }

    /// Takes the next character, if any is left.
    fn next_char(&mut self) -> (c: Option<char>)
        requires
            old(self).wf(),
        ensures
            final(self).wf(),
            final(self).input() == old(self).input(),
            match c {
                Some(ch) => old(self).remaining().len() > 0 && ch == old(self).remaining()[0]
                    && final(self).remaining() == old(self).remaining().drop_first(),
                None => old(self).remaining().len() == 0 && *final(self) == *old(self),
            },
    {
        let n = self.s.unicode_len();
        if self.pos < n {
            let ch = self.s.get_char(self.pos);
            self.pos = self.pos + 1;
            proof {
                assert(self.remaining() =~= old(self).remaining().drop_first());
            }
            Some(ch)
        } else {
            None
        }
    }

    /// Reads one term — a single digit — and appends it to the output.
    pub fn term(&mut self, out: &mut String)
        requires
            old(self).wf(),
            old(self).remaining().len() > 0,
            is_digit_char(old(self).remaining()[0]),
        ensures
            final(self).wf(),
            final(self).input() == old(self).input(),
            final(self).remaining() == old(self).remaining().drop_first(),
            final(out)@ == old(out)@.push(old(self).remaining()[0]),
    {
        match self.next_char() {
            Some(ch) => {
                let code = ch as u32;
                if 48 <= code && code <= 57 {
                    push_char(out, ch);
                } else {
                    proof {
                        assert(false);
                    }
                }
            },
            None => {
                proof {
                    assert(false);
                }
            },
        }
    }

    /// Translates the whole expression to postfix, appending to the output.
    pub fn interpret(&mut self, out: &mut String)
        requires
            old(self).wf(),
            well_formed_infix(old(self).remaining()),
        ensures
            final(self).wf(),
            final(self).remaining().len() == 0,
            final(out)@ == old(out)@ + postfix_of(old(self).remaining()),
    {
        let ghost orig = self.remaining();
        let ghost out0 = out@;
        self.term(out);
        proof {
            assert(orig.take(1) =~= seq![orig[0]]);
            assert(out@ =~= out0 + postfix_of(orig.take(1)));
            assert(self.remaining() =~= orig.skip(1));
        }
        let ghost mut done: int = 1;
        let n = self.s.unicode_len();
        while self.pos < n
            invariant
                self.wf(),
                n == self.input().len(),
                well_formed_infix(orig),
                1 <= done <= orig.len(),
                done % 2 == 1,
                self.remaining() == orig.skip(done),
                out@ == out0 + postfix_of(orig.take(done)),
            decreases n - self.pos,
        {
            match self.next_char() {
                Some(op) => {
                    proof {
                        assert(op == orig[done]);
                        assert(is_op_char(orig[done]));
                        assert(is_digit_char(orig[done + 1]));
                        assert(self.remaining() =~= orig.skip(done + 1));
                    }
                    if op == '+' || op == '-' {
                        self.term(out);
                        push_char(out, op);
                        proof {
                            let t = orig.take(done + 2);
                            assert(t.take(done) =~= orig.take(done));
                            assert(out@ =~= out0 + postfix_of(orig.take(done + 2)));
                            assert(self.remaining() =~= orig.skip(done + 2));
                            done = done + 2;
                        }
                    } else {
                        proof {
                            assert(false);
                        }
                    }
                },
                None => {
                    proof {
                        assert(false);
                    }
                },
            }
        }
        proof {
            assert(self.remaining().len() == 0);
            assert(done == orig.len());
            assert(orig.take(done) =~= orig);
        }
    }
}

} // verus!

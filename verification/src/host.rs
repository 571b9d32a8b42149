//! The host collaborator: floating-point arithmetic and standard I/O.
//!
//! The evaluator never performs `aether` (64-bit IEEE 754) arithmetic and
//! never touches real input or output.  Instead a [`Host`] value carries
//! three things: a table answering floating-point queries bit pattern by
//! bit pattern, a queue of input lines, and the output text written so
//! far.  When the evaluator meets a floating-point operation whose answer
//! is not in the table, or needs an input line the queue does not hold,
//! it stops with an explicit request (see `Halt` in the `eval` module);
//! the caller performs the operation, records the answer, and evaluates
//! again.  Evaluation is a pure function of the program, the environment
//! and the host value.

use vstd::prelude::*;
use vstd::string::StringExecFns;

verus! {

/// A binary floating-point operation on two `aether` bit patterns.
#[derive(Debug, Clone, Copy, PartialEq, Eq, Structural)]
pub enum AetherBinOp {
    Add,
    Sub,
    Mul,
    Div,
    Mod,
    Pow,
}

/// An ordering test on two `aether` bit patterns.
#[derive(Debug, Clone, Copy, PartialEq, Eq, Structural)]
pub enum AetherCmpOp {
    Lt,
    Le,
    Gt,
    Ge,
}

/// One question to the host's floating-point unit.
#[derive(Debug)]
pub enum AetherQuery {
    /// The bit pattern of `op(a, b)`.
    Bin(AetherBinOp, u64, u64),
    /// The truth value of `a op b`.
    Cmp(AetherCmpOp, u64, u64),
    /// The bit pattern of the 64-bit integer converted to floating point.
    OfArcana(i64),
    /// The 64-bit integer the bit pattern converts to (as a saturating cast).
    ToArcana(u64),
    /// The bit pattern the text parses to, if it parses.
    Parse(String),
    /// The textual form of the bit pattern.
    Text(u64),
}

/// The host's answer to one query.
#[derive(Debug)]
pub enum AetherReply {
    Bits(u64),
    Truth(bool),
    Num(i64),
    ParseOk(u64),
    ParseFail,
    Words(String),
}

/// Spec-level mirror of [`AetherQuery`].
pub enum QueryView {
    Bin(AetherBinOp, u64, u64),
    Cmp(AetherCmpOp, u64, u64),
    OfArcana(i64),
    ToArcana(u64),
    Parse(Seq<char>),
    Text(u64),
}

/// Spec-level mirror of [`AetherReply`].
pub enum ReplyView {
    Bits(u64),
    Truth(bool),
    Num(i64),
    ParseOk(u64),
    ParseFail,
    Words(Seq<char>),
}

/// The spec-level mirror of a query.
pub open spec fn query_view(q: AetherQuery) -> QueryView {
    match q {
        AetherQuery::Bin(op, a, b) => QueryView::Bin(op, a, b),
        AetherQuery::Cmp(op, a, b) => QueryView::Cmp(op, a, b),
        AetherQuery::OfArcana(n) => QueryView::OfArcana(n),
        AetherQuery::ToArcana(n) => QueryView::ToArcana(n),
        AetherQuery::Parse(s) => QueryView::Parse(s@),
        AetherQuery::Text(n) => QueryView::Text(n),
    }
}

/// The spec-level mirror of a reply.
pub open spec fn reply_view(r: AetherReply) -> ReplyView {
    match r {
        AetherReply::Bits(n) => ReplyView::Bits(n),
        AetherReply::Truth(b) => ReplyView::Truth(b),
        AetherReply::Num(n) => ReplyView::Num(n),
        AetherReply::ParseOk(n) => ReplyView::ParseOk(n),
        AetherReply::ParseFail => ReplyView::ParseFail,
        AetherReply::Words(s) => ReplyView::Words(s@),
    }
}

/// A copy of a query, equal under [`query_view`].
pub fn clone_query(q: &AetherQuery) -> (r: AetherQuery)
    ensures
        query_view(r) == query_view(*q),
{
    match q {
        AetherQuery::Bin(op, a, b) => AetherQuery::Bin(*op, *a, *b),
        AetherQuery::Cmp(op, a, b) => AetherQuery::Cmp(*op, *a, *b),
        AetherQuery::OfArcana(n) => AetherQuery::OfArcana(*n),
        AetherQuery::ToArcana(n) => AetherQuery::ToArcana(*n),
        AetherQuery::Parse(s) => AetherQuery::Parse(s.clone()),
        AetherQuery::Text(n) => AetherQuery::Text(*n),
    }
}

/// A copy of a reply, equal under [`reply_view`].
pub fn clone_reply(r: &AetherReply) -> (c: AetherReply)
    ensures
        reply_view(c) == reply_view(*r),
{
    match r {
        AetherReply::Bits(n) => AetherReply::Bits(*n),
        AetherReply::Truth(b) => AetherReply::Truth(*b),
        AetherReply::Num(n) => AetherReply::Num(*n),
        AetherReply::ParseOk(n) => AetherReply::ParseOk(*n),
        AetherReply::ParseFail => AetherReply::ParseFail,
        AetherReply::Words(s) => AetherReply::Words(s.clone()),
    }
}

/// Whether two queries ask the same question.
pub fn query_eq(a: &AetherQuery, b: &AetherQuery) -> (r: bool)
    ensures
        r == (query_view(*a) == query_view(*b)),
{
    match a {
        AetherQuery::Bin(o1, x1, y1) => match b {
            AetherQuery::Bin(o2, x2, y2) => {
                let same = *o1 == *o2 && *x1 == *x2 && *y1 == *y2;
                proof {
                    assert(query_view(*a) == QueryView::Bin(*o1, *x1, *y1));
                    assert(query_view(*b) == QueryView::Bin(*o2, *x2, *y2));
                    if same {
                        assert(query_view(*a) == query_view(*b));
                    } else {
                        assert(query_view(*a) != query_view(*b));
                    }
                }
                same
            },
            _ => {
                proof {
                    assert(query_view(*a) != query_view(*b));
                }
                false
            },
        },
        AetherQuery::Cmp(o1, x1, y1) => match b {
            AetherQuery::Cmp(o2, x2, y2) => {
                let same = *o1 == *o2 && *x1 == *x2 && *y1 == *y2;
                proof {
                    assert(same == (query_view(*a) == query_view(*b)));
                }
                same
            },
            _ => {
                proof {
                    assert(query_view(*a) != query_view(*b));
                }
                false
            },
        },
        AetherQuery::OfArcana(n1) => match b {
            AetherQuery::OfArcana(n2) => {
                let same = *n1 == *n2;
                proof {
                    assert(same == (query_view(*a) == query_view(*b)));
                }
                same
            },
            _ => {
                proof {
                    assert(query_view(*a) != query_view(*b));
                }
                false
            },
        },
        AetherQuery::ToArcana(n1) => match b {
            AetherQuery::ToArcana(n2) => {
                let same = *n1 == *n2;
                proof {
                    assert(same == (query_view(*a) == query_view(*b)));
                }
                same
            },
            _ => {
                proof {
                    assert(query_view(*a) != query_view(*b));
                }
                false
            },
        },
        AetherQuery::Parse(s1) => match b {
            AetherQuery::Parse(s2) => {
                let same = *s1 == *s2;
                proof {
                    assert(same == (query_view(*a) == query_view(*b)));
                }
                same
            },
            _ => {
                proof {
                    assert(query_view(*a) != query_view(*b));
                }
                false
            },
        },
        AetherQuery::Text(n1) => match b {
            AetherQuery::Text(n2) => {
                let same = *n1 == *n2;
                proof {
                    assert(same == (query_view(*a) == query_view(*b)));
                }
                same
            },
            _ => {
                proof {
                    assert(query_view(*a) != query_view(*b));
                }
                false
            },
        },
    }
}

/// The state of the streams: input lines (with how many are consumed) and
/// the output text.
pub struct IoView {
    pub input: Seq<Seq<char>>,
    pub taken: int,
    pub output: Seq<char>,
}

/// Spec-level mirror of [`Host`].
pub struct HostView {
    pub aether: Seq<(QueryView, ReplyView)>,
    pub io: IoView,
}

/// The first answer the table holds for `q`, if any.
pub open spec fn table_lookup(t: Seq<(QueryView, ReplyView)>, q: QueryView) -> Option<ReplyView>
    decreases t.len(),
{
    if t.len() == 0 {
        None
    } else if t.first().0 == q {
        Some(t.first().1)
    } else {
        table_lookup(t.drop_first(), q)
    }
}

/// The host: the floating-point answer table, the input queue and the
/// output written so far.
#[derive(Debug)]
pub struct Host {
    aether: Vec<(AetherQuery, AetherReply)>,
    input: Vec<String>,
    taken: usize,
    output: String,
}

impl View for Host {
    type V = HostView;

    closed spec fn view(&self) -> HostView {
        HostView {
            aether: Seq::new(
                self.aether@.len(),
                |i: int| (query_view(self.aether@[i].0), reply_view(self.aether@[i].1)),
            ),
            io: IoView {
                input: Seq::new(self.input@.len(), |i: int| self.input@[i]@),
                taken: self.taken as int,
                output: self.output@,
            },
        }
    }
}

impl Host {
    /// A host with the given input lines, an empty answer table and no
    /// output yet.
    pub fn new(input: Vec<String>) -> (r: Host)
        ensures
            r@.aether == Seq::<(QueryView, ReplyView)>::empty(),
            r@.io.input == Seq::new(input@.len(), |i: int| input@[i]@),
            r@.io.taken == 0,
            r@.io.output == Seq::<char>::empty(),
    {
        let r = Host { aether: Vec::new(), input, taken: 0, output: String::new() };
        proof {
            assert(r@.aether =~= Seq::<(QueryView, ReplyView)>::empty());
        }
        r
    }

    /// Records one answer at the end of the table.
    pub fn give(&mut self, q: AetherQuery, r: AetherReply)
        ensures
            final(self)@.aether == old(self)@.aether.push((query_view(q), reply_view(r))),
            final(self)@.io == old(self)@.io,
    {
        self.aether.push((q, r));
        proof {
            assert(self@.aether =~= old(self)@.aether.push((query_view(q), reply_view(r))));
            assert(self@.io.input =~= old(self)@.io.input);
        }
    }

    /// The first answer the table holds for `q`, if any.
    pub fn find(&self, q: &AetherQuery) -> (r: Option<&AetherReply>)
        ensures
            match r {
                Some(a) => table_lookup(self@.aether, query_view(*q)) == Some(reply_view(*a)),
                None => table_lookup(self@.aether, query_view(*q)) is None,
            },
    {
        let mut i: usize = 0;
        proof {
            assert(self@.aether.skip(0) =~= self@.aether);
        }
        while i < self.aether.len()
            invariant
                i <= self.aether.len(),
                table_lookup(self@.aether, query_view(*q)) == table_lookup(
                    self@.aether.skip(i as int),
                    query_view(*q),
                ),
            decreases self.aether.len() - i,
        {
            proof {
                assert(self@.aether.skip(i as int).first() == self@.aether[i as int]);
                assert(self@.aether.skip(i as int).drop_first() =~= self@.aether.skip(i + 1));
            }
            if query_eq(&self.aether[i].0, q) {
                return Some(&self.aether[i].1);
            }
            i = i + 1;
        }
        proof {
            assert(self@.aether.skip(self@.aether.len() as int) =~= Seq::<
                (QueryView, ReplyView),
            >::empty());
        }
        None
    }

    /// Takes the next input line, if the queue still holds one.
    pub fn read_line(&mut self) -> (r: Option<String>)
        ensures
            final(self)@.aether == old(self)@.aether,
            final(self)@.io.input == old(self)@.io.input,
            final(self)@.io.output == old(self)@.io.output,
            match r {
                Some(s) => old(self)@.io.taken < old(self)@.io.input.len() && s@ == old(
                    self,
                )@.io.input[old(self)@.io.taken] && final(self)@.io.taken == old(self)@.io.taken
                    + 1,
                None => old(self)@.io.taken >= old(self)@.io.input.len() && final(self)@.io.taken
                    == old(self)@.io.taken,
            },
    {
        if self.taken < self.input.len() {
            let s = self.input[self.taken].clone();
            self.taken = self.taken + 1;
            Some(s)
        } else {
            None
        }
    }

    /// Appends text to the output.
    pub fn emit(&mut self, s: &str)
        ensures
            final(self)@.aether == old(self)@.aether,
            final(self)@.io.input == old(self)@.io.input,
            final(self)@.io.taken == old(self)@.io.taken,
            final(self)@.io.output == old(self)@.io.output + s@,
    {
        self.output.append(s);
    }

    /// The output written so far.
    pub fn written(&self) -> (r: &String)
        ensures
            r@ == self@.io.output,
    {
        &self.output
    }

    /// An independent copy of the whole host, equal under the view.
    pub fn duplicate(&self) -> (r: Host)
        ensures
            r@ == self@,
    {
        let mut aether: Vec<(AetherQuery, AetherReply)> = Vec::new();
        let mut i: usize = 0;
        while i < self.aether.len()
            invariant
                i <= self.aether.len(),
                aether@.len() == i,
                forall|j: int|
                    0 <= j < i ==> query_view(aether@[j].0) == query_view(self.aether@[j].0)
                        && reply_view(aether@[j].1) == reply_view(self.aether@[j].1),
            decreases self.aether.len() - i,
        {
            aether.push((clone_query(&self.aether[i].0), clone_reply(&self.aether[i].1)));
            i = i + 1;
        }
        let mut input: Vec<String> = Vec::new();
        let mut k: usize = 0;
        while k < self.input.len()
            invariant
                k <= self.input.len(),
                input@.len() == k,
                forall|j: int| 0 <= j < k ==> input@[j]@ == self.input@[j]@,
            decreases self.input.len() - k,
        {
            input.push(self.input[k].clone());
            k = k + 1;
        }
        let r = Host { aether, input, taken: self.taken, output: self.output.clone() };
        proof {
            assert(r@.aether =~= self@.aether);
            assert(r@.io.input =~= self@.io.input);
        }
        r
    }
}

} // verus!

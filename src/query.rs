//! Encoding of optional, typed request parameters into a flat list of
//! string pairs that becomes the query string of a request.
use vstd::prelude::*;

verus! {

/// The character of a single decimal digit.
pub open spec fn digit_char_spec(d: nat) -> char {
    if d == 0 {
        '0'
    } else if d == 1 {
        '1'
    } else if d == 2 {
        '2'
    } else if d == 3 {
        '3'
    } else if d == 4 {
        '4'
    } else if d == 5 {
        '5'
    } else if d == 6 {
        '6'
    } else if d == 7 {
        '7'
    } else if d == 8 {
        '8'
    } else {
        '9'
    }
}

/// The value of a decimal digit character (0 for anything else).
pub open spec fn digit_value(c: char) -> nat {
    if '0' <= c && c <= '9' {
        (c as nat - '0' as nat) as nat
    } else {
        0
    }
}

/// Whether a character is a decimal digit.
pub open spec fn is_digit(c: char) -> bool {
    '0' <= c && c <= '9'
}

/// The decimal text of a natural number, without leading zeros.
pub open spec fn decimal(n: nat) -> Seq<char>
    decreases n,
{
    if n < 10 {
        seq![digit_char_spec(n)]
    } else {
        decimal(n / 10).push(digit_char_spec(n % 10))
    }
}

/// The number that a string of decimal digits denotes.
pub open spec fn parse_decimal(s: Seq<char>) -> nat
    decreases s.len(),
{
    if s.len() == 0 {
        0
    } else {
        parse_decimal(s.drop_last()) * 10 + digit_value(s.last())
    }
}

/// The ids written in decimal, in their order, separated by `,`.
pub open spec fn join_ids(ids: Seq<usize>) -> Seq<char>
    decreases ids.len(),
{
    if ids.len() == 0 {
        seq![]
    } else if ids.len() == 1 {
        decimal(ids[0] as nat)
    } else {
        join_ids(ids.drop_last()) + seq![','] + decimal(ids.last() as nat)
    }
}

/// The pieces of a text between its `,` separators; a text without a
/// separator is one piece.
pub open spec fn split_commas(s: Seq<char>) -> Seq<Seq<char>>
    decreases s.len(),
{
    if s.len() == 0 {
        seq![seq![]]
    } else {
        let pieces = split_commas(s.drop_last());
        if s.last() == ',' {
            pieces.push(seq![])
        } else {
            pieces.update(pieces.len() - 1, pieces.last().push(s.last()))
        }
    }
}

/// A value that a request parameter can take.
pub enum QueryValue {
    Id(usize),
    Text(String),
    Ids(Vec<usize>),
}

impl QueryValue {
    /// The text that stands for the value in a query string.
    pub open spec fn encoded(&self) -> Seq<char> {
        match self {
            QueryValue::Id(n) => decimal(*n as nat),
            QueryValue::Text(s) => s@,
            QueryValue::Ids(ids) => join_ids(ids@),
        }
    }

    /// Whether the value is left out of a query: an empty id list is.
    pub open spec fn is_blank(&self) -> bool {
        match self {
            QueryValue::Ids(ids) => ids@.len() == 0,
            _ => false,
        }
    }

    /// The text of the value in a query string.
    pub fn process(&self) -> (r: String)
        ensures
            r@ == self.encoded(),
    {
        match self {
            QueryValue::Id(n) => {
                let mut out = String::new();
                push_decimal(&mut out, *n as u64);
                out
            },
            QueryValue::Text(s) => s.clone(),
            QueryValue::Ids(ids) => encode_ids(ids),
        }
    }
}

/// Relies on String::push: appends one character.
#[verifier::external_body]
pub(crate) fn push_char(s: &mut String, c: char)
    ensures
        final(s)@ == old(s)@.push(c),
{
    s.push(c)
}

pub(crate) fn digit_char(d: u64) -> (c: char)
    requires
        d < 10,
    ensures
        c == digit_char_spec(d as nat),
{
    match d {
        0 => '0',
        1 => '1',
        2 => '2',
        3 => '3',
        4 => '4',
        5 => '5',
        6 => '6',
        7 => '7',
        8 => '8',
        _ => '9',
    }
}

/// Appends the decimal text of `n`.
pub fn push_decimal(out: &mut String, n: u64)
    ensures
        final(out)@ == old(out)@ + decimal(n as nat),
    decreases n,
{
    if n >= 10 {
        push_decimal(out, n / 10);
    }
    push_char(out, digit_char(n % 10));
    proof {
        if n < 10 {
            assert(n % 10 == n);
        }
        assert(final(out)@ =~= old(out)@ + decimal(n as nat));
    }
}

/// The ids in decimal, in their order, joined by `,`.
pub fn encode_ids(ids: &Vec<usize>) -> (r: String)
    ensures
        r@ == join_ids(ids@),
{
    let mut out = String::new();
    let mut i: usize = 0;
    while i < ids.len()
        invariant
            i <= ids@.len(),
            out@ == join_ids(ids@.subrange(0, i as int)),
        decreases ids@.len() - i,
    {
        let ghost before = out@;
        if i > 0 {
            push_char(&mut out, ',');
        }
        push_decimal(&mut out, ids[i] as u64);
        proof {
            let next = ids@.subrange(0, i + 1);
            assert(next.drop_last() =~= ids@.subrange(0, i as int));
            assert(next.last() == ids@[i as int]);
            if i == 0 {
                assert(out@ =~= decimal(ids@[0] as nat));
            } else {
                assert(out@ =~= before + seq![','] + decimal(ids@[i as int] as nat));
            }
        }
        i = i + 1;
    }
    assert(ids@.subrange(0, ids@.len() as int) =~= ids@);
    out
}

/// The key and text of each parameter that is given, in their order.
pub open spec fn encoded_pairs(params: Seq<(Seq<char>, Option<QueryValue>)>) -> Seq<(Seq<char>, Seq<char>)>
    decreases params.len(),
{
    if params.len() == 0 {
        seq![]
    } else {
        let rest = encoded_pairs(params.drop_last());
        match params.last().1 {
            Some(v) => if v.is_blank() {
                rest
            } else {
                rest.push((params.last().0, v.encoded()))
            },
            None => rest,
        }
    }
}

/// The parameters with each key as text.
pub open spec fn params_view(params: Seq<(String, Option<QueryValue>)>) -> Seq<(Seq<char>, Option<QueryValue>)> {
    params.map_values(|p: (String, Option<QueryValue>)| (p.0@, p.1))
}

/// The query that a parameter set encodes to: `None` when no parameter is
/// given, else each given parameter with its text.
pub open spec fn query_of(params: Seq<(Seq<char>, Option<QueryValue>)>) -> Option<Seq<(Seq<char>, Seq<char>)>> {
    if encoded_pairs(params).len() == 0 {
        None
    } else {
        Some(encoded_pairs(params))
    }
}

/// A built query as text.
pub open spec fn query_view(q: Option<Vec<(String, String)>>) -> Option<Seq<(Seq<char>, Seq<char>)>> {
    match q {
        Some(pairs) => Some(pairs_view(pairs@)),
        None => None,
    }
}

/// Key and value pairs as text.
pub open spec fn pairs_view(pairs: Seq<(String, String)>) -> Seq<(Seq<char>, Seq<char>)> {
    pairs.map_values(|p: (String, String)| (p.0@, p.1@))
}

/// The query of a request: `None` when no parameter is given, so that no
/// query string is sent at all; else each given parameter with its text.
pub fn build_query(params: Vec<(String, Option<QueryValue>)>) -> (r: Option<Vec<(String, String)>>)
    ensures
        query_view(r) == query_of(params_view(params@)),
{
    let mut pairs: Vec<(String, String)> = Vec::new();
    let mut i: usize = 0;
    while i < params.len()
        invariant
            i <= params@.len(),
            pairs_view(pairs@) == encoded_pairs(params_view(params@.subrange(0, i as int))),
        decreases params@.len() - i,
    {
        let ghost before = pairs@;
        let ghost sub = params_view(params@.subrange(0, i + 1));
        proof {
            assert(sub.drop_last() =~= params_view(params@.subrange(0, i as int)));
            assert(sub.last() == (params@[i as int].0@, params@[i as int].1));
        }
        match &params[i].1 {
            Some(v) => {
                let blank = match v {
                    QueryValue::Ids(ids) => ids.len() == 0,
                    _ => false,
                };
                if !blank {
                    let text = v.process();
                    pairs.push((params[i].0.clone(), text));
                    proof {
                        assert(pairs@ == before.push(pairs@.last()));
                        assert(pairs_view(pairs@) =~= pairs_view(before).push(
                            (params@[i as int].0@, v.encoded()),
                        ));
                    }
                }
            },
            None => {},
        }
        i = i + 1;
    }
    assert(params@.subrange(0, params@.len() as int) =~= params@);
    if pairs.len() == 0 {
        assert(pairs_view(pairs@).len() == 0);
        None
    } else {
        Some(pairs)
    }
}

proof fn lemma_decimal_digits(n: nat)
    ensures
        decimal(n).len() > 0,
        forall|j: int| 0 <= j < decimal(n).len() ==> is_digit(#[trigger] decimal(n)[j]),
    decreases n,
{
    if n >= 10 {
        lemma_decimal_digits(n / 10);
    }
}

proof fn lemma_digit_value(d: nat)
    requires
        d < 10,
    ensures
        digit_value(digit_char_spec(d)) == d,
        is_digit(digit_char_spec(d)),
{
}

proof fn lemma_parse_decimal(n: nat)
    ensures
        parse_decimal(decimal(n)) == n,
    decreases n,
{
    if n < 10 {
        lemma_digit_value(n);
        assert(decimal(n).drop_last() =~= Seq::<char>::empty());
        assert(decimal(n).last() == digit_char_spec(n));
        assert(parse_decimal(Seq::<char>::empty()) == 0);
        assert(parse_decimal(decimal(n)) == parse_decimal(decimal(n).drop_last()) * 10 + n);
    } else {
        lemma_digit_value(n % 10);
        lemma_parse_decimal(n / 10);
        assert(decimal(n).drop_last() =~= decimal(n / 10));
        assert(decimal(n).last() == digit_char_spec(n % 10));
        assert(parse_decimal(decimal(n)) == (n / 10) * 10 + n % 10);
        assert(n == (n / 10) * 10 + n % 10) by (nonlinear_arith);
    }
}

proof fn lemma_split_extend(x: Seq<char>, b: Seq<char>)
    requires
        forall|j: int| 0 <= j < b.len() ==> b[j] != ',',
    ensures
        split_commas(x + b) == split_commas(x).update(
            split_commas(x).len() - 1,
            split_commas(x).last() + b,
        ),
        split_commas(x).len() > 0,
    decreases b.len(),
{
    lemma_split_nonempty(x);
    if b.len() == 0 {
        assert(x + b =~= x);
        assert(split_commas(x).last() + b =~= split_commas(x).last());
        assert(split_commas(x).update(split_commas(x).len() - 1, split_commas(x).last())
            =~= split_commas(x));
    } else {
        let b0 = b.drop_last();
        lemma_split_extend(x, b0);
        assert((x + b).drop_last() =~= x + b0);
        assert((x + b).last() == b.last());
        let p = split_commas(x);
        let q = split_commas(x + b0);
        assert(q.len() == p.len());
        assert(q.last() == p.last() + b0);
        assert(q.last().push(b.last()) =~= p.last() + b);
        assert(p.last() + b0 + seq![b.last()] =~= p.last() + b);
        assert(q.update(q.len() - 1, q.last().push(b.last())) =~= p.update(
            p.len() - 1,
            p.last() + b,
        ));
    }
}

proof fn lemma_split_nonempty(x: Seq<char>)
    ensures
        split_commas(x).len() > 0,
    decreases x.len(),
{
    if x.len() > 0 {
        lemma_split_nonempty(x.drop_last());
    }
}

proof fn lemma_split_join(ids: Seq<usize>)
    requires
        ids.len() > 0,
    ensures
        split_commas(join_ids(ids)) == ids.map_values(|i: usize| decimal(i as nat)),
    decreases ids.len(),
{
    let last = decimal(ids.last() as nat);
    lemma_decimal_digits(ids.last() as nat);
    if ids.len() == 1 {
        lemma_split_extend(seq![], last);
        assert(seq![] + last =~= last);
        assert(split_commas(seq![]) =~= seq![seq![]]);
        assert(split_commas(join_ids(ids)) =~= ids.map_values(|i: usize| decimal(i as nat)));
    } else {
        let front = ids.drop_last();
        lemma_split_join(front);
        let x = join_ids(front) + seq![','];
        assert(x.drop_last() =~= join_ids(front));
        lemma_split_extend(x, last);
        assert(split_commas(x) == split_commas(join_ids(front)).push(seq![]));
        assert(seq![] + last =~= last);
        assert(split_commas(join_ids(ids)) =~= ids.map_values(|i: usize| decimal(i as nat)));
    }
}

/// Splitting the text of a non-empty id list at each `,` gives one piece per
/// id, in the same order; each piece is a non-empty run of decimal digits
/// whose number is that id.
pub proof fn lemma_ids_round_trip(ids: Seq<usize>)
    requires
        ids.len() > 0,
    ensures
        split_commas(join_ids(ids)).len() == ids.len(),
        forall|i: int|
            0 <= i < ids.len() ==> {
                let piece = #[trigger] split_commas(join_ids(ids))[i];
                &&& piece.len() > 0
                &&& forall|j: int| 0 <= j < piece.len() ==> is_digit(piece[j])
                &&& parse_decimal(piece) == ids[i] as nat
            },
{
    lemma_split_join(ids);
    assert forall|i: int| 0 <= i < ids.len() implies {
        let piece = #[trigger] split_commas(join_ids(ids))[i];
        &&& piece.len() > 0
        &&& forall|j: int| 0 <= j < piece.len() ==> is_digit(piece[j])
        &&& parse_decimal(piece) == ids[i] as nat
    } by {
        lemma_decimal_digits(ids[i] as nat);
        lemma_parse_decimal(ids[i] as nat);
    }
}

/// A parameter set in which no value is given encodes to no parameters at
/// all, so that its query is `None` rather than an empty list.
pub proof fn lemma_all_absent_is_empty(params: Seq<(Seq<char>, Option<QueryValue>)>)
    requires
        forall|i: int| 0 <= i < params.len() ==> (#[trigger] params[i]).1 is None,
    ensures
        encoded_pairs(params).len() == 0,
        query_of(params) is None,
    decreases params.len(),
{
    if params.len() > 0 {
        let front = params.drop_last();
        assert forall|i: int| 0 <= i < front.len() implies (#[trigger] front[i]).1 is None by {
            assert(front[i] == params[i]);
        }
        lemma_all_absent_is_empty(front);
        assert(params.last() == params[params.len() - 1]);
    }
}

} // verus!

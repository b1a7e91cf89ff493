//! Dice rolling: parsing compact dice notation, rolling the dice with a real
//! random source, and rendering the outcomes.
//!
//! Dice notation is the single form `XdY`: one or more decimal digits, a
//! literal lowercase `d`, and one or more decimal digits, with nothing before,
//! between or after. `X` is the number of dice and `Y` the number of faces on
//! each. `0d0` is well formed; a die with zero faces rolls the sentinel
//! outcome `0`.

use vstd::prelude::*;

verus! {

/// Error: malformed dice notation, or a count or face value too large for the
/// host's integer width.
#[derive(Debug, Clone, Copy, PartialEq, Eq, Structural)]
pub struct ParseError;

/// A request to roll a given number of dice, each with a given number of faces.
#[derive(Debug, Clone, Copy, PartialEq, Eq, Structural)]
pub struct RollManyRequest {
    pub num_dice: usize,
    pub num_faces: usize,
}

impl Default for RollManyRequest {
    /// The empty request: no dice, no faces.
    fn default() -> (r: Self)
        ensures
            r.num_dice == 0 && r.num_faces == 0,
    {
        RollManyRequest { num_dice: 0, num_faces: 0 }
    }
}

/// Whether `c` is a decimal digit.
pub open spec fn is_dec_digit(c: char) -> bool {
    '0' <= c && c <= '9'
}

/// The numeric value of the decimal digit `c`.
pub open spec fn digit_val(c: char) -> int {
    c as int - '0' as int
}

/// Whether every character of `s` is a decimal digit.
pub open spec fn all_dec_digits(s: Seq<char>) -> bool {
    forall|i: int| 0 <= i < s.len() ==> is_dec_digit(#[trigger] s[i])
}

/// The numeric value of the digit string `s`, most significant digit first.
/// The empty string has value `0`.
pub open spec fn dec_val(s: Seq<char>) -> int
    decreases s.len(),
{
    if s.len() == 0 {
        0
    } else {
        dec_val(s.drop_last()) * 10 + digit_val(s.last())
    }
}

/// Splitting `s` at index `d` exhibits it as well-formed dice notation:
/// a non-empty digit string, the literal `'d'`, a non-empty digit string.
pub open spec fn splits_notation_at(s: Seq<char>, d: int) -> bool {
    &&& 1 <= d
    &&& d + 1 < s.len()
    &&& s[d] == 'd'
    &&& all_dec_digits(s.take(d))
    &&& all_dec_digits(s.skip(d + 1))
}

/// Whether `s` is well-formed dice notation `XdY`.
pub open spec fn is_notation(s: Seq<char>) -> bool {
    exists|d: int| splits_notation_at(s, d)
}

/// The index of the `'d'` of a well-formed notation. Since `'d'` is not a
/// digit, the split position is unique ([`lemma_notation_split_at`]).
pub open spec fn notation_split(s: Seq<char>) -> int {
    choose|d: int| splits_notation_at(s, d)
}

/// The dice count of a well-formed notation: the value of the digits before
/// the `'d'`.
pub open spec fn notation_count(s: Seq<char>) -> int {
    dec_val(s.take(notation_split(s)))
}

/// The face count of a well-formed notation: the value of the digits after
/// the `'d'`.
pub open spec fn notation_faces(s: Seq<char>) -> int {
    dec_val(s.skip(notation_split(s) + 1))
}

/// A notation splits at one position only, so any witness is the split.
pub proof fn lemma_notation_split_at(s: Seq<char>, d: int)
    requires
        splits_notation_at(s, d),
    ensures
        is_notation(s),
        notation_split(s) == d,
{
    assert(is_notation(s));
    let d2 = notation_split(s);
    assert(splits_notation_at(s, d2));
    if d < d2 {
        assert(is_dec_digit(s.take(d2)[d]));
        assert(false);
    }
    if d2 < d {
        assert(is_dec_digit(s.take(d)[d2]));
        assert(false);
    }
}

/// The value of a digit string is non-negative.
pub proof fn lemma_dec_val_nonneg(s: Seq<char>)
    requires
        all_dec_digits(s),
    ensures
        dec_val(s) >= 0,
    decreases s.len(),
{
    if s.len() > 0 {
        assert(all_dec_digits(s.drop_last()));
        lemma_dec_val_nonneg(s.drop_last());
    }
}

/// Extending a digit string can only increase its value.
pub proof fn lemma_dec_val_take_le(s: Seq<char>, i: int)
    requires
        all_dec_digits(s),
        0 <= i <= s.len(),
    ensures
        dec_val(s.take(i)) <= dec_val(s),
    decreases s.len() - i,
{
    if i == s.len() {
        assert(s.take(i) =~= s);
    } else {
        assert(s.take(i + 1).drop_last() =~= s.take(i));
        assert(s.take(i + 1).last() == s[i]);
        assert(all_dec_digits(s.take(i)));
        lemma_dec_val_nonneg(s.take(i));
        assert(dec_val(s.take(i + 1)) == dec_val(s.take(i)) * 10 + digit_val(s[i]));
        lemma_dec_val_take_le(s, i + 1);
    }
}

/// Parse the decimal digits of `s` at indices `[from, to)` into a `usize`,
/// or `None` if their value does not fit.
fn parse_digits(s: &str, from: usize, to: usize) -> (r: Option<usize>)
    requires
        from <= to <= s@.len(),
        all_dec_digits(s@.subrange(from as int, to as int)),
    ensures
        r matches Some(v) ==> v == dec_val(s@.subrange(from as int, to as int)),
        r is None <==> dec_val(s@.subrange(from as int, to as int)) > usize::MAX,
{
    let ghost digits = s@.subrange(from as int, to as int);
    let mut val: usize = 0;
    for i in from..to
        invariant
            from <= i <= to <= s@.len(),
            digits == s@.subrange(from as int, to as int),
            all_dec_digits(digits),
            val == dec_val(digits.take(i - from)),
    {
        let c = s.get_char(i);
        proof {
            assert(digits[i - from] == s@[i as int]);
            assert(is_dec_digit(digits[i - from]));
            assert(digits.take(i - from + 1).drop_last() =~= digits.take(i - from));
            assert(digits.take(i - from + 1).last() == digits[i - from]);
        }
        let d: usize = ((c as u32) - ('0' as u32)) as usize;
        let overflowed: bool = match val.checked_mul(10) {
            Some(v10) => {
                match v10.checked_add(d) {
                    Some(v) => {
                        val = v;
                        false
                    },
                    None => true,
                }
            },
            None => true,
        };
        if overflowed {
            proof {
                lemma_dec_val_nonneg(digits.take(i - from));
                assert(dec_val(digits.take(i - from + 1)) > usize::MAX);
                lemma_dec_val_take_le(digits, i - from + 1);
            }
            return None;
        }
    }
    proof {
        assert(digits.take(to - from) =~= digits);
    }
    Some(val)
}

/// Take a string and, if it is well-formed dice notation whose two values fit
/// the host's integer width, return the parsed [`RollManyRequest`].
pub fn parse_roll_many_str(input_str: &str) -> (r: Result<RollManyRequest, ParseError>)
    ensures
        r matches Ok(req) ==> {
            &&& is_notation(input_str@)
            &&& req.num_dice == notation_count(input_str@)
            &&& req.num_faces == notation_faces(input_str@)
        },
        r is Ok <==> is_notation(input_str@) && notation_count(input_str@) <= usize::MAX
            && notation_faces(input_str@) <= usize::MAX,
{
    let ghost s = input_str@;
    let n = input_str.unicode_len();

    // Find the first 'd'; `dpos == n` means none was seen yet.
    let mut dpos: usize = n;
    for i in 0..n
        invariant
            n == s.len(),
            s == input_str@,
            dpos <= n,
            dpos == n ==> forall|j: int| 0 <= j < i ==> s[j] != 'd',
            dpos < n ==> s[dpos as int] == 'd' && (forall|j: int| 0 <= j < dpos ==> s[j] != 'd'),
    {
        if dpos == n && input_str.get_char(i) == 'd' {
            dpos = i;
        }
    }

    if dpos == n {
        proof {
            assert forall|d: int| !splits_notation_at(s, d) by {
                if 1 <= d && d + 1 < s.len() {
                    assert(s[d] != 'd');
                }
            }
        }
        return Err(ParseError);
    }

    // The first 'd' is the only possible split position.
    if dpos == 0 || dpos + 1 >= n {
        proof {
            assert forall|d: int| !splits_notation_at(s, d) by {
                if splits_notation_at(s, d) {
                    assert(s[d] == 'd');
                    assert(d >= dpos);
                    if d > dpos {
                        assert(is_dec_digit(s.take(d)[dpos as int]));
                    }
                    assert(false);
                }
            }
        }
        return Err(ParseError);
    }

    // Both sides of the 'd' must be all digits.
    for i in 0..dpos
        invariant
            n == s.len(),
            s == input_str@,
            0 < dpos && dpos + 1 < n,
            s[dpos as int] == 'd',
            forall|j: int| 0 <= j < dpos ==> s[j] != 'd',
            forall|j: int| 0 <= j < i ==> is_dec_digit(#[trigger] s[j]),
    {
        let c = input_str.get_char(i);
        if !('0' <= c && c <= '9') {
            proof {
                assert forall|d: int| !splits_notation_at(s, d) by {
                    if splits_notation_at(s, d) {
                        assert(s[d] == 'd');
                        assert(d >= dpos);
                        if d > dpos {
                            assert(is_dec_digit(s.take(d)[dpos as int]));
                        }
                        assert(is_dec_digit(s.take(d)[i as int]));
                        assert(false);
                    }
                }
            }
            return Err(ParseError);
        }
    }
    let mut i: usize = dpos + 1;
    while i < n
        invariant
            n == s.len(),
            s == input_str@,
            0 < dpos && dpos + 1 <= i <= n,
            dpos + 1 < n,
            s[dpos as int] == 'd',
            forall|j: int| 0 <= j < dpos ==> s[j] != 'd',
            forall|j: int| 0 <= j < dpos ==> is_dec_digit(#[trigger] s[j]),
            forall|j: int| dpos < j < i ==> is_dec_digit(#[trigger] s[j]),
        decreases n - i,
    {
        let c = input_str.get_char(i);
        if !('0' <= c && c <= '9') {
            proof {
                assert forall|d: int| !splits_notation_at(s, d) by {
                    if splits_notation_at(s, d) {
                        assert(s[d] == 'd');
                        assert(d >= dpos);
                        if d > dpos {
                            assert(is_dec_digit(s.take(d)[dpos as int]));
                        }
                        assert(is_dec_digit(s.skip(d + 1)[i - d - 1]));
                        assert(false);
                    }
                }
            }
            return Err(ParseError);
        }
        i = i + 1;
    }

    proof {
        assert forall|j: int| 0 <= j < s.take(dpos as int).len() implies is_dec_digit(
            #[trigger] s.take(dpos as int)[j],
        ) by {
            assert(s.take(dpos as int)[j] == s[j]);
        }
        assert forall|j: int| 0 <= j < s.skip(dpos + 1).len() implies is_dec_digit(
            #[trigger] s.skip(dpos + 1)[j],
        ) by {
            assert(s.skip(dpos + 1)[j] == s[dpos + 1 + j]);
        }
        assert(splits_notation_at(s, dpos as int));
        lemma_notation_split_at(s, dpos as int);
    }

    let num_dice = match parse_digits(input_str, 0, dpos) {
        Some(v) => v,
        None => {
            return Err(ParseError);
        },
    };
    let num_faces = match parse_digits(input_str, dpos + 1, n) {
        Some(v) => v,
        None => {
            return Err(ParseError);
        },
    };

    Ok(RollManyRequest { num_dice, num_faces })
}

/// Relies on `rand::random_range`: a uniformly distributed value within the
/// given (non-empty) inclusive range, from the thread-local random source.
#[verifier::external_body]
fn sample_range_inclusive(lo: usize, hi: usize) -> (r: usize)
    requires
        lo <= hi,
    ensures
        lo <= r <= hi,
{
    rand::random_range(lo..=hi)
}

/// A single die outcome: in `[1, num_faces]` for a real die, and the
/// sentinel `0` for a zero-faced die.
pub open spec fn die_outcome_ok(num_faces: usize, outcome: usize) -> bool {
    if num_faces == 0 {
        outcome == 0
    } else {
        1 <= outcome <= num_faces
    }
}

/// Roll a single die with `num_faces` faces and return the rolled value, in
/// `[1, num_faces]`. A zero-faced die has no rollable value and yields the
/// sentinel `0`.
pub fn roll_die(num_faces: usize) -> (r: usize)
    ensures
        die_outcome_ok(num_faces, r),
{
    if num_faces == 0 {
        0
    } else {
        sample_range_inclusive(1, num_faces)
    }
}

/// Roll `request.num_dice` dice with `request.num_faces` faces each,
/// preserving roll order in the returned vector.
pub fn roll_many(request: RollManyRequest) -> (r: Vec<usize>)
    ensures
        r@.len() == request.num_dice,
        forall|i: int| 0 <= i < r@.len() ==> die_outcome_ok(request.num_faces, #[trigger] r@[i]),
{
    let mut results: Vec<usize> = Vec::new();
    for i in 0..request.num_dice
        invariant
            results@.len() == i,
            forall|j: int| 0 <= j < results@.len() ==> die_outcome_ok(
                request.num_faces,
                #[trigger] results@[j],
            ),
    {
        results.push(roll_die(request.num_faces));
    }
    results
}

/// The sum of a sequence of outcomes.
pub open spec fn outcome_sum(s: Seq<usize>) -> int
    decreases s.len(),
{
    if s.len() == 0 {
        0
    } else {
        outcome_sum(s.drop_last()) + s.last()
    }
}

/// A prefix of a sequence of outcomes sums to no more than the whole.
pub proof fn lemma_outcome_sum_take_le(s: Seq<usize>, i: int)
    requires
        0 <= i <= s.len(),
    ensures
        outcome_sum(s.take(i)) <= outcome_sum(s),
    decreases s.len() - i,
{
    if i == s.len() {
        assert(s.take(i) =~= s);
    } else {
        assert(s.take(i + 1).drop_last() =~= s.take(i));
        assert(s.take(i + 1).last() == s[i]);
        lemma_outcome_sum_take_le(s, i + 1);
    }
}

/// The decimal digit character for `d` in `[0, 9]`.
pub open spec fn digit_char(d: int) -> char {
    if d == 0 {
        '0'
    } else if d == 1 {
        '1'
    } else if d == 2 {
        '2'
    } else if d == 3 {
        '3'
    } else if d == 4 {
        '4'
    } else if d == 5 {
        '5'
    } else if d == 6 {
        '6'
    } else if d == 7 {
        '7'
    } else if d == 8 {
        '8'
    } else {
        '9'
    }
}

/// The decimal rendering of a non-negative integer: no sign, no leading
/// zeros, a lone `'0'` for zero.
pub open spec fn dec_str(n: int) -> Seq<char>
    decreases n,
{
    if n < 10 {
        seq![digit_char(n)]
    } else {
        dec_str(n / 10).push(digit_char(n % 10))
    }
}

/// The outcomes joined by `'+'` in roll order.
pub open spec fn plus_join(s: Seq<usize>) -> Seq<char>
    decreases s.len(),
{
    if s.len() == 0 {
        Seq::<char>::empty()
    } else if s.len() == 1 {
        dec_str(s[0] as int)
    } else {
        plus_join(s.drop_last()) + seq!['+'] + dec_str(s.last() as int)
    }
}

/// The rendering of a roll's outcomes: `"0"` for none, the bare value for
/// one, and the `'+'`-joined values followed by `'='` and their sum for two
/// or more.
pub open spec fn render_spec(s: Seq<usize>) -> Seq<char> {
    if s.len() == 0 {
        seq!['0']
    } else if s.len() == 1 {
        dec_str(s[0] as int)
    } else {
        plus_join(s) + seq!['='] + dec_str(outcome_sum(s))
    }
}

/// The decimal digit string for `d` in `[0, 9]`.
fn digit_str(d: usize) -> (r: &'static str)
    requires
        d < 10,
    ensures
        r@ == seq![digit_char(d as int)],
{
    if d == 0 {
        proof {
            reveal_strlit("0");
            assert("0"@ =~= seq![digit_char(0)]);
        }
        "0"
    } else if d == 1 {
        proof {
            reveal_strlit("1");
            assert("1"@ =~= seq![digit_char(1)]);
        }
        "1"
    } else if d == 2 {
        proof {
            reveal_strlit("2");
            assert("2"@ =~= seq![digit_char(2)]);
        }
        "2"
    } else if d == 3 {
        proof {
            reveal_strlit("3");
            assert("3"@ =~= seq![digit_char(3)]);
        }
        "3"
    } else if d == 4 {
        proof {
            reveal_strlit("4");
            assert("4"@ =~= seq![digit_char(4)]);
        }
        "4"
    } else if d == 5 {
        proof {
            reveal_strlit("5");
            assert("5"@ =~= seq![digit_char(5)]);
        }
        "5"
    } else if d == 6 {
        proof {
            reveal_strlit("6");
            assert("6"@ =~= seq![digit_char(6)]);
        }
        "6"
    } else if d == 7 {
        proof {
            reveal_strlit("7");
            assert("7"@ =~= seq![digit_char(7)]);
        }
        "7"
    } else if d == 8 {
        proof {
            reveal_strlit("8");
            assert("8"@ =~= seq![digit_char(8)]);
        }
        "8"
    } else {
        proof {
            reveal_strlit("9");
            assert("9"@ =~= seq![digit_char(9)]);
        }
        "9"
    }
}

/// The decimal rendering of `n` as an owned string.
fn usize_to_string(n: usize) -> (r: String)
    ensures
        r@ == dec_str(n as int),
    decreases n,
{
    if n < 10 {
        digit_str(n).to_owned()
    } else {
        let mut prefix = usize_to_string(n / 10);
        prefix.append(digit_str(n % 10));
        proof {
            assert(dec_str((n / 10) as int).push(digit_char((n % 10) as int)) =~= dec_str(
                (n / 10) as int,
            ) + seq![digit_char((n % 10) as int)]);
        }
        prefix
    }
}

/// A set of results from a group of rolled dice stemming from a
/// [`RollManyRequest`].
#[derive(Debug, Clone, PartialEq, Eq)]
pub struct RolledDiceResults {
    pub request: RollManyRequest,
    pub results: Vec<usize>,
}

impl Default for RolledDiceResults {
    /// The empty result: the empty request and no outcomes.
    fn default() -> (r: Self)
        ensures
            r.request.num_dice == 0 && r.request.num_faces == 0,
            r.results@ =~= Seq::<usize>::empty(),
    {
        RolledDiceResults { request: Default::default(), results: Vec::new() }
    }
}

impl RolledDiceResults {
    /// Render the outcomes: `"0"` when there are none, the bare value for a
    /// single outcome, and the `'+'`-joined values followed by `'='` and
    /// their sum otherwise. Callable when the outcome sum fits the host's
    /// integer width.
    pub fn render(&self) -> (r: String)
        requires
            outcome_sum(self.results@) <= usize::MAX,
        ensures
            r@ == render_spec(self.results@),
    {
        let n = self.results.len();
        if n == 0 {
            proof {
                reveal_strlit("0");
                assert("0"@ =~= seq!['0']);
            }
            return "0".to_owned();
        }
        if n == 1 {
            return usize_to_string(self.results[0]);
        }
        let mut out = usize_to_string(self.results[0]);
        let mut sum: usize = self.results[0];
        proof {
            assert(outcome_sum(Seq::<usize>::empty()) == 0);
            assert(self.results@.take(1).drop_last() =~= Seq::<usize>::empty());
            assert(self.results@.take(1)[0] == self.results@[0]);
            assert(outcome_sum(self.results@.take(1)) == self.results@[0]);
            reveal_strlit("+");
            reveal_strlit("=");
            assert("+"@ =~= seq!['+']);
            assert("="@ =~= seq!['=']);
        }
        for i in 1..n
            invariant
                n == self.results@.len(),
                1 <= i <= n,
                outcome_sum(self.results@) <= usize::MAX,
                sum == outcome_sum(self.results@.take(i as int)),
                out@ == plus_join(self.results@.take(i as int)),
                "+"@ =~= seq!['+'],
        {
            out.append("+");
            let v = self.results[i];
            let vs = usize_to_string(v);
            out.append(vs.as_str());
            proof {
                assert(self.results@.take(i + 1).drop_last() =~= self.results@.take(i as int));
                assert(self.results@.take(i + 1).last() == self.results@[i as int]);
                lemma_outcome_sum_take_le(self.results@, i + 1);
            }
            sum = sum + v;
        }
        proof {
            assert(self.results@.take(n as int) =~= self.results@);
        }
        out.append("=");
        let sum_str = usize_to_string(sum);
        out.append(sum_str.as_str());
        out
    }
}

/// Take a string of format `XdY`, where
///
/// - `X` is the number of dice being rolled.
/// - `Y` is the number of faces the dice have.
///
/// Roll the parsed request and return [`RolledDiceResults`], holding the
/// request and the rolled values in roll order. A malformed string fails
/// with the [`ParseError`] of [`parse_roll_many_str`], before any die is
/// rolled; no other error is introduced.
pub fn roll_many_from_str(input_str: &str) -> (r: Result<RolledDiceResults, ParseError>)
    ensures
        r matches Ok(res) ==> {
            &&& res.request.num_dice == notation_count(input_str@)
            &&& res.request.num_faces == notation_faces(input_str@)
            &&& res.results@.len() == res.request.num_dice
            &&& forall|i: int|
                0 <= i < res.results@.len() ==> die_outcome_ok(
                    res.request.num_faces,
                    #[trigger] res.results@[i],
                )
        },
        r is Ok <==> is_notation(input_str@) && notation_count(input_str@) <= usize::MAX
            && notation_faces(input_str@) <= usize::MAX,
{
    let request = match parse_roll_many_str(input_str) {
        Ok(req) => req,
        Err(e) => {
            return Err(e);
        },
    };
    let results = roll_many(request);
    Ok(RolledDiceResults { request, results })
}

} // verus!

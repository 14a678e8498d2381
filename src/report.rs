//! The per-instance report: the lines written for one validation outcome.
use vstd::prelude::*;

verus! {

/// The character of a decimal digit.
pub open spec fn digit_char(d: nat) -> char
    recommends
        d < 10,
{
    if d == 0 { '0' }
    else if d == 1 { '1' }
    else if d == 2 { '2' }
    else if d == 3 { '3' }
    else if d == 4 { '4' }
    else if d == 5 { '5' }
    else if d == 6 { '6' }
    else if d == 7 { '7' }
    else if d == 8 { '8' }
    else { '9' }
}

/// The decimal notation of `n`, without leading zeros.
pub open spec fn decimal(n: nat) -> Seq<char>
    decreases n,
{
    if n < 10 {
        seq![digit_char(n)]
    } else {
        decimal(n / 10).push(digit_char(n % 10))
    }
}

/// The line for an instance that satisfies the schema.
pub open spec fn valid_line(name: Seq<char>) -> Seq<char> {
    name + " - VALID"@
}

/// The first line of the block of an instance that violates the schema.
pub open spec fn invalid_header(name: Seq<char>) -> Seq<char> {
    name + " - INVALID. Errors:"@
}

/// The line of the error numbered `number` (counting from one).
pub open spec fn error_line(number: nat, message: Seq<char>) -> Seq<char> {
    decimal(number) + ". "@ + message
}

/// The error messages numbered 1, 2, ... in the order given.
pub open spec fn numbered(messages: Seq<Seq<char>>) -> Seq<Seq<char>> {
    Seq::new(messages.len(), |i: int| error_line((i + 1) as nat, messages[i]))
}

/// The line written when the schema does not compile.
pub open spec fn schema_invalid(message: Seq<char>) -> Seq<char> {
    "Schema is invalid. Error: "@ + message
}

/// What the validator said of one instance.
#[derive(Debug, Clone)]
pub enum Outcome {
    /// The instance satisfies every constraint.
    Valid,
    /// The instance violates constraints; the messages in the validator's order.
    Invalid(Vec<String>),
}

impl Outcome {
    /// Whether the outcome is a success.
    pub open spec fn is_valid_spec(&self) -> bool {
        self is Valid
    }

    /// The error messages of the outcome (none for a valid instance).
    pub open spec fn messages(&self) -> Seq<Seq<char>> {
        match self {
            Outcome::Valid => Seq::empty(),
            Outcome::Invalid(errors) => errors.deep_view(),
        }
    }

    /// Whether the outcome is a success.
    pub fn is_valid(&self) -> (r: bool)
        ensures
            r == self.is_valid_spec(),
    {
        match self {
            Outcome::Valid => true,
            Outcome::Invalid(_) => false,
        }
    }
}

/// The block of report lines for the instance `name` with outcome `o`.
pub open spec fn block(name: Seq<char>, o: Outcome) -> Seq<Seq<char>> {
    if o.is_valid_spec() {
        seq![valid_line(name)]
    } else {
        seq![invalid_header(name)] + numbered(o.messages())
    }
}

/// The text of a decimal digit.
fn digit_text(d: usize) -> (r: &'static str)
    requires
        d < 10,
    ensures
        r@ == seq![digit_char(d as nat)],
{
    proof {
        reveal_strlit("0");
        reveal_strlit("1");
        reveal_strlit("2");
        reveal_strlit("3");
        reveal_strlit("4");
        reveal_strlit("5");
        reveal_strlit("6");
        reveal_strlit("7");
        reveal_strlit("8");
        reveal_strlit("9");
    }
    if d == 0 { "0" }
    else if d == 1 { "1" }
    else if d == 2 { "2" }
    else if d == 3 { "3" }
    else if d == 4 { "4" }
    else if d == 5 { "5" }
    else if d == 6 { "6" }
    else if d == 7 { "7" }
    else if d == 8 { "8" }
    else { "9" }
}

/// Writes `n` in decimal.
pub fn decimal_string(n: usize) -> (r: String)
    ensures
        r@ == decimal(n as nat),
    decreases n,
{
    if n < 10 {
        String::from_str(digit_text(n))
    } else {
        let mut s = decimal_string(n / 10);
        s.append(digit_text(n % 10));
        s
    }
}

/// The line of the error numbered `number`.
pub fn error_line_string(number: usize, message: &str) -> (r: String)
    ensures
        r@ == error_line(number as nat, message@),
{
    let mut s = decimal_string(number);
    s.append(". ");
    s.append(message);
    s
}

/// The line written when the schema does not compile, with the compiler's message.
pub fn schema_invalid_line(message: &str) -> (r: String)
    ensures
        r@ == schema_invalid(message@),
{
    let mut s = String::from_str("Schema is invalid. Error: ");
    s.append(message);
    s
}

/// The report lines for the instance `name` with outcome `outcome`: one
/// `VALID` line, or an `INVALID` header followed by the numbered errors in
/// the order the validator gave them.
pub fn report_lines(name: &str, outcome: &Outcome) -> (r: Vec<String>)
    ensures
        r.deep_view() == block(name@, *outcome),
{
    let mut lines: Vec<String> = Vec::new();
    match outcome {
        Outcome::Valid => {
            let mut s = String::from_str(name);
            s.append(" - VALID");
            lines.push(s);
        },
        Outcome::Invalid(errors) => {
            let mut s = String::from_str(name);
            s.append(" - INVALID. Errors:");
            lines.push(s);
            let mut i: usize = 0;
            while i < errors.len()
                invariant
                    i <= errors.len(),
                    lines.deep_view() == seq![invalid_header(name@)] + numbered(
                        errors.deep_view().take(i as int),
                    ),
                decreases errors.len() - i,
            {
                let line = error_line_string(i + 1, errors[i].as_str());
                let ghost before = lines.deep_view();
                lines.push(line);
                proof {
                    let dv = errors.deep_view();
                    assert(dv[i as int] == errors[i as int]@);
                    assert(numbered(dv.take(i + 1)) =~= numbered(dv.take(i as int)).push(
                        error_line((i + 1) as nat, dv[i as int]),
                    ));
                    assert(lines.deep_view() =~= before.push(line@));
                }
                i = i + 1;
                assert(lines.deep_view() =~= seq![invalid_header(name@)] + numbered(
                    errors.deep_view().take(i as int),
                ));
            }
            assert(errors.deep_view().take(i as int) =~= errors.deep_view());
        },
    }
    proof {
        if outcome.is_valid_spec() {
            assert(lines.deep_view() =~= block(name@, *outcome));
        }
    }
    lines
}

} // verus!

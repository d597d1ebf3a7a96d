//! The text of a failed validation, from the findings the service reports.
use vstd::prelude::*;
use vstd::string::*;

verus! {

/// The decimal digit for `d`.
pub open spec fn digit_char(d: nat) -> char {
    "0123456789"@[d as int]
}

/// The decimal text of `n`, without leading zeros.
pub open spec fn decimal(n: nat) -> Seq<char>
    decreases n,
{
    if n < 10 {
        seq![digit_char(n)]
    } else {
        decimal(n / 10).push(digit_char(n % 10))
    }
}

/// One finding of a validation: a message, on a line when one is known.
pub struct Finding {
    pub line: Option<u32>,
    pub message: String,
}

/// How a finding's line is written: `Some(12)`, or `None`.
pub open spec fn line_text(line: Option<u32>) -> Seq<char> {
    match line {
        Some(n) => "Some("@ + decimal(n as nat) + ")"@,
        None => "None"@,
    }
}

/// One finding as a line of the report: `[Line Some(12)] message`.
pub open spec fn finding_text(line: Option<u32>, message: Seq<char>) -> Seq<char> {
    "[Line "@ + line_text(line) + "] "@ + message
}

/// The report: the findings' lines, separated by newlines.
pub open spec fn report_text(fs: Seq<Finding>) -> Seq<char>
    decreases fs.len(),
{
    if fs.len() == 0 {
        Seq::empty()
    } else if fs.len() == 1 {
        finding_text(fs[0].line, fs[0].message@)
    } else {
        report_text(fs.drop_last()) + "\n"@ + finding_text(fs.last().line, fs.last().message@)
    }
}

/// Appends the decimal text of `n`.
pub fn push_decimal(out: &mut String, n: u32)
    ensures
        final(out)@ == old(out)@ + decimal(n as nat),
    decreases n,
{
    let digits = "0123456789";
    proof {
        reveal_strlit("0123456789");
    }
    if n >= 10 {
        push_decimal(out, n / 10);
    }
    let d = (n % 10) as usize;
    out.append(digits.substring_char(d, d + 1));
    assert(digits@.subrange(d as int, d as int + 1) =~= seq![digit_char(d as nat)]);
    assert(old(out)@ + decimal(n as nat) =~= (old(out)@ + (if n >= 10 {
        decimal((n / 10) as nat)
    } else {
        Seq::empty()
    })) + seq![digit_char((n % 10) as nat)]);
}

/// Appends one finding's line.
fn push_finding(out: &mut String, f: &Finding)
    ensures
        final(out)@ == old(out)@ + finding_text(f.line, f.message@),
{
    out.append("[Line ");
    match f.line {
        Some(n) => {
            out.append("Some(");
            push_decimal(out, n);
            out.append(")");
        },
        None => {
            out.append("None");
        },
    }
    out.append("] ");
    out.append(f.message.as_str());
    assert(final(out)@ =~= old(out)@ + finding_text(f.line, f.message@));
}

/// The report of a failed validation: one line per finding.
pub fn findings_report(fs: &Vec<Finding>) -> (r: String)
    ensures
        r@ == report_text(fs@),
{
    let mut out = String::new();
    let mut i: usize = 0;
    while i < fs.len()
        invariant
            i <= fs@.len(),
            out@ == report_text(fs@.subrange(0, i as int)),
        decreases fs@.len() - i,
    {
        let ghost pre = fs@.subrange(0, i as int);
        let ghost next = fs@.subrange(0, i as int + 1);
        assert(next.drop_last() =~= pre);
        if i > 0 {
            out.append("\n");
        }
        push_finding(&mut out, &fs[i]);
        if i == 0 {
            assert(out@ =~= report_text(next));
        } else {
            assert(out@ =~= report_text(next));
        }
        i = i + 1;
    }
    assert(fs@.subrange(0, fs@.len() as int) =~= fs@);
    out
}

/// The result of a validation: success when valid, else the report of its
/// findings as the error.
pub fn validation_result(valid: bool, findings: &Vec<Finding>) -> (r: Result<(), String>)
    ensures
        valid <==> r is Ok,
        match r {
            Ok(_) => true,
            Err(e) => e@ == report_text(findings@),
        },
{
    if valid {
        Ok(())
    } else {
        Err(findings_report(findings))
    }
}

} // verus!

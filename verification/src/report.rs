//! Renders an error's cause chain as a human-readable report.
//!
//! The chain is first turned into plain values: each cause contributes its
//! display message and, where one was captured, its rendered backtrace. The
//! report lists the root cause first, separates consecutive causes with an
//! explanatory line, and notes where each cause happened when its backtrace
//! is non-empty.

use vstd::prelude::*;

verus! {

/// One link of an error's cause chain, as plain strings.
#[derive(Debug)]
pub struct Cause {
    /// What the cause displays as.
    pub message: String,
    /// The backtrace captured at this cause, rendered; `None` where the
    /// cause carries no backtrace.
    pub backtrace: Option<String>,
}

/// The text one cause contributes to the report. Every cause after the first
/// is introduced by an explanatory line; the cause's message follows; the
/// line ends by naming where it happened when a non-empty backtrace was
/// captured.
pub open spec fn spec_cause_text(c: Cause, first: bool) -> Seq<char> {
    let head = if first {
        Seq::<char>::empty()
    } else {
        "   Which caused the following issue:\n"@
    };
    let tail = match c.backtrace {
        Some(b) => if b@.len() > 0 {
            " This happened at "@ + b@ + "\n"@
        } else {
            "\n"@
        },
        None => "\n"@,
    };
    head + c.message@ + tail
}

/// The whole report of a cause chain given root cause first: the causes'
/// texts in order, the first marked as such.
pub open spec fn spec_report(causes: Seq<Cause>) -> Seq<char>
    decreases causes.len(),
{
    if causes.len() == 0 {
        Seq::<char>::empty()
    } else {
        spec_report(causes.drop_last()) + spec_cause_text(causes.last(), causes.len() == 1)
    }
}

/// Render the report of a cause chain given root cause first.
pub fn render_report(causes: &Vec<Cause>) -> (r: String)
    ensures
        r@ == spec_report(causes@),
{
    let mut out = String::new();
    let mut i: usize = 0;
    while i < causes.len()
        invariant
            i <= causes@.len(),
            out@ == spec_report(causes@.take(i as int)),
        decreases causes@.len() - i,
    {
        if i > 0 {
            out.append("   Which caused the following issue:\n");
        }
        out.append(causes[i].message.as_str());
        match &causes[i].backtrace {
            Some(b) => {
                if !b.as_str().is_empty() {
                    out.append(" This happened at ");
                    out.append(b.as_str());
                    out.append("\n");
                } else {
                    out.append("\n");
                }
            },
            None => {
                out.append("\n");
            },
        }
        proof {
            let taken = causes@.take(i + 1);
            assert(taken.drop_last() =~= causes@.take(i as int));
            assert(taken.last() == causes@[i as int]);
            assert(out@ =~= spec_report(taken));
        }
        i = i + 1;
    }
    proof {
        assert(causes@.take(causes@.len() as int) =~= causes@);
    }
    out
}

/// Reverse a cause chain, so that a chain handed outermost error first is
/// rendered root cause first.
pub fn reverse_causes(v: Vec<Cause>) -> (r: Vec<Cause>)
    ensures
        r@ == v@.reverse(),
{
    let ghost v0 = v@;
    let mut v = v;
    let mut r: Vec<Cause> = Vec::new();
    while v.len() > 0
        invariant
            v@.len() <= v0.len(),
            v@ == v0.take(v@.len() as int),
            r@ == v0.skip(v@.len() as int).reverse(),
        decreases v@.len(),
    {
        let ghost n = v@.len() as int;
        let c = v.pop().unwrap();
        r.push(c);
        proof {
            assert(v@ =~= v0.take(n - 1));
            assert(r@ =~= v0.skip(n - 1).reverse());
        }
    }
    proof {
        assert(v0.skip(0) =~= v0);
    }
    r
}

/// `failure::Error`, declared so that the formatter can take it by value.
#[verifier::external_type_specification]
#[verifier::external_body]
pub struct ExError(failure::Error);

/// Relies on `failure::Error::iter_chain`, which yields the error's own
/// failure first and then each cause down to the root, so the chain holds at
/// least one link; and on each link's `Display` and `Fail::backtrace` for
/// the message and the rendered backtrace.
#[verifier::external_body]
fn error_chain(e: &failure::Error) -> (r: Vec<Cause>)
    ensures
        r@.len() >= 1,
{
    let mut out = Vec::new();
    for cause in e.iter_chain() {
        let backtrace = cause.backtrace().map(|b| format!("{}", b));
        out.push(Cause { message: format!("{}", cause), backtrace });
    }
    out
}

/// Format an error and all its causes as a multi-line report, root cause
/// first. Whatever chain the error yields, the result is the rendering of
/// that chain: a report of at least one cause.
pub fn failure_to_string(e: failure::Error) -> (r: String)
    ensures
        exists|causes: Seq<Cause>| causes.len() >= 1 && r@ == #[trigger] spec_report(causes),
{
    let chain = error_chain(&e);
    let ordered = reverse_causes(chain);
    let r = render_report(&ordered);
    proof {
        assert(ordered@.len() >= 1 && r@ == spec_report(ordered@));
    }
    r
}

} // verus!

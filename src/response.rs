//! What the classifier produced, and the HTML fragment made of it.

use vstd::prelude::*;
use crate::error::ClassifyError;

verus! {

/// The result of running the classifier program once.
pub struct ClassificationOutcome {
    pub stdout: Vec<u8>,
    pub stderr: Vec<u8>,
    /// The program exited with status zero.
    pub success: bool,
    /// The exit code, where the program exited with one.
    pub code: Option<i32>,
}

/// The text that `b` reads as UTF-8, with each invalid sequence replaced by
/// U+FFFD.
pub uninterp spec fn utf8_lossy_text(b: Seq<u8>) -> Seq<char>;

/// Relies on String::from_utf8_lossy: the text depends on the bytes alone.
#[verifier::external_body]
fn utf8_lossy(b: &[u8]) -> (r: String)
    ensures
        r@ == utf8_lossy_text(b@),
{
    String::from_utf8_lossy(b).into_owned()
}

/// Program output as text; no output gives no text.
pub open spec fn output_text(b: Seq<u8>) -> Seq<char> {
    if b.len() == 0 {
        Seq::empty()
    } else {
        utf8_lossy_text(b)
    }
}

pub open spec fn errors_marker() -> Seq<char> {
    "\nErrors:\n"@
}

pub open spec fn draw_again_control() -> Seq<char> {
    "<br><button onclick=\"window.location.href='/'\">Draw Again</button>"@
}

/// The HTML fragment: the output, then any error text after a marker, in a
/// preformatted block, then the "Draw Again" control where asked for.
pub open spec fn page(out: Seq<char>, err: Seq<char>, draw_again: bool) -> Seq<char> {
    let text = if err.len() == 0 {
        out
    } else {
        out + errors_marker() + err
    };
    let block = "<pre>"@ + text + "</pre>"@;
    if draw_again {
        block + draw_again_control()
    } else {
        block
    }
}

/// Builds the HTML fragment from the output and error texts.
pub fn format_page(out: &str, err: &str, draw_again: bool) -> (r: String)
    ensures
        r@ == page(out@, err@, draw_again),
{
    let mut r = String::from_str("<pre>");
    r.append(out);
    if err.unicode_len() > 0 {
        r.append("\nErrors:\n");
        r.append(err);
    }
    r.append("</pre>");
    if draw_again {
        r.append("<br><button onclick=\"window.location.href='/'\">Draw Again</button>");
    }
    proof {
        let text = if err@.len() == 0 { out@ } else { out@ + errors_marker() + err@ };
        assert(("<pre>"@ + text + "</pre>"@) =~= ("<pre>"@ + out@ + (if err@.len() == 0 {
            Seq::<char>::empty()
        } else {
            errors_marker() + err@
        }) + "</pre>"@));
    }
    r
}

/// What a finished classifier run amounts to: a failure status is an error
/// whatever the program printed; otherwise the page of its output.
pub open spec fn settled(o: ClassificationOutcome, draw_again: bool) -> Result<Seq<char>, ClassifyError> {
    if o.success {
        Ok(page(output_text(o.stdout@), output_text(o.stderr@), draw_again))
    } else {
        Err(ClassifyError::ClassifierFailure)
    }
}

fn output_string(b: &Vec<u8>) -> (r: String)
    ensures
        r@ == output_text(b@),
{
    if b.len() == 0 {
        String::new()
    } else {
        utf8_lossy(b.as_slice())
    }
}

/// Renders a finished classifier run as the response body, or the error it
/// amounts to.
pub fn render_outcome(o: &ClassificationOutcome, draw_again: bool) -> (r: Result<String, ClassifyError>)
    ensures
        match (r, settled(*o, draw_again)) {
            (Ok(s), Ok(t)) => s@ == t,
            (Err(e), Err(f)) => e == f,
            _ => false,
        },
{
    if !o.success {
        return Err(ClassifyError::ClassifierFailure);
    }
    let out = output_string(&o.stdout);
    let err = output_string(&o.stderr);
    Ok(format_page(out.as_str(), err.as_str(), draw_again))
}

} // verus!

//! Conversion parameters, the converted text, and the failure type.
//!
//! [`Fixation`] and [`Saccade`] are the two closed sets of semantic levels a
//! caller can pick for a conversion; each level carries a fixed numeric code
//! on the wire. [`Text`] wraps the markup the service answered with.
//! [`Error`] is the one failure the library propagates.

use vstd::prelude::*;

verus! {

/// Fixation levels.
///
/// How much of each word is emphasized: `Weakest` highlights the least,
/// `Strongest` the most.
#[derive(Clone, Copy, PartialEq, Eq, Structural, Debug)]
pub enum Fixation {
    Weakest,
    Weak,
    Average,
    Strong,
    Strongest,
}

impl Fixation {
    /// The numeric wire code of this level.
    pub open spec fn to_code_spec(self) -> u8 {
        match self {
            Fixation::Weakest => 1,
            Fixation::Weak => 2,
            Fixation::Average => 3,
            Fixation::Strong => 4,
            Fixation::Strongest => 5,
        }
    }

    /// The level a numeric code decodes to: the four codes of the
    /// non-`Average` levels give their level back; every other value, the
    /// `Average` code `3` included, falls back to `Average`.
    pub open spec fn from_code_spec(code: u8) -> Fixation {
        if code == 1 {
            Fixation::Weakest
        } else if code == 2 {
            Fixation::Weak
        } else if code == 4 {
            Fixation::Strong
        } else if code == 5 {
            Fixation::Strongest
        } else {
            Fixation::Average
        }
    }

    /// Encode this level as its numeric wire code.
    pub fn to_code(self) -> (r: u8)
        ensures
            r == self.to_code_spec(),
    {
        match self {
            Fixation::Weakest => 1,
            Fixation::Weak => 2,
            Fixation::Average => 3,
            Fixation::Strong => 4,
            Fixation::Strongest => 5,
        }
    }

    /// Decode a numeric wire code; total over all byte values.
    ///
    /// Every unmapped code falls back to `Average` instead of failing, so a
    /// caller round-tripping stored codes should know that malformed values
    /// are silently absorbed.
    pub fn from_code(code: u8) -> (r: Fixation)
        ensures
            r == Fixation::from_code_spec(code),
    {
        match code {
            1 => Fixation::Weakest,
            2 => Fixation::Weak,
            4 => Fixation::Strong,
            5 => Fixation::Strongest,
            _ => Fixation::Average,
        }
    }
}

impl Default for Fixation {
    /// The weakest fixation is the default.
    fn default() -> (r: Self)
        ensures
            r == Fixation::Weakest,
    {
        Fixation::Weakest
    }
}

/// Law: encoding a fixation level and decoding the code gives the level back
/// for the four non-`Average` levels; the `Average` code `3` and every
/// unmapped code decode to `Average`.
pub proof fn lemma_fixation_round_trip(level: Fixation, code: u8)
    ensures
        level != Fixation::Average ==> Fixation::from_code_spec(level.to_code_spec()) == level,
        Fixation::from_code_spec(3) == Fixation::Average,
        !(code == 1 || code == 2 || code == 4 || code == 5) ==> Fixation::from_code_spec(code)
            == Fixation::Average,
{
}

/// Saccade levels.
///
/// How many emphasis points each line gets: `Fewest` gives the biggest
/// visual jumps, `Most` the shortest.
#[derive(Clone, Copy, PartialEq, Eq, Structural, Debug)]
pub enum Saccade {
    Fewest,
    Few,
    Average,
    More,
    Most,
}

impl Saccade {
    /// The numeric wire code of this level.
    pub open spec fn to_code_spec(self) -> u8 {
        match self {
            Saccade::Fewest => 10,
            Saccade::Few => 20,
            Saccade::Average => 30,
            Saccade::More => 40,
            Saccade::Most => 50,
        }
    }

    /// The level a numeric code decodes to: the four codes of the
    /// non-`Average` levels give their level back; every other value, the
    /// `Average` code `30` included, falls back to `Average`.
    pub open spec fn from_code_spec(code: u8) -> Saccade {
        if code == 10 {
            Saccade::Fewest
        } else if code == 20 {
            Saccade::Few
        } else if code == 40 {
            Saccade::More
        } else if code == 50 {
            Saccade::Most
        } else {
            Saccade::Average
        }
    }

    /// Encode this level as its numeric wire code.
    pub fn to_code(self) -> (r: u8)
        ensures
            r == self.to_code_spec(),
    {
        match self {
            Saccade::Fewest => 10,
            Saccade::Few => 20,
            Saccade::Average => 30,
            Saccade::More => 40,
            Saccade::Most => 50,
        }
    }

    /// Decode a numeric wire code; total over all byte values.
    ///
    /// Every unmapped code falls back to `Average` instead of failing, so a
    /// caller round-tripping stored codes should know that malformed values
    /// are silently absorbed.
    pub fn from_code(code: u8) -> (r: Saccade)
        ensures
            r == Saccade::from_code_spec(code),
    {
        match code {
            10 => Saccade::Fewest,
            20 => Saccade::Few,
            40 => Saccade::More,
            50 => Saccade::Most,
            _ => Saccade::Average,
        }
    }
}

impl Default for Saccade {
    /// The fewest saccades are the default.
    fn default() -> (r: Self)
        ensures
            r == Saccade::Fewest,
    {
        Saccade::Fewest
    }
}

/// Law: encoding a saccade level and decoding the code gives the level back
/// for the four non-`Average` levels; the `Average` code `30` and every
/// unmapped code decode to `Average`.
pub proof fn lemma_saccade_round_trip(level: Saccade, code: u8)
    ensures
        level != Saccade::Average ==> Saccade::from_code_spec(level.to_code_spec()) == level,
        Saccade::from_code_spec(30) == Saccade::Average,
        !(code == 10 || code == 20 || code == 40 || code == 50) ==> Saccade::from_code_spec(code)
            == Saccade::Average,
{
}

/// What the external markup converter returns for a given piece of HTML.
/// The result depends on the input string alone.
pub uninterp spec fn markdown_of(html: Seq<char>) -> Seq<char>;

/// Relies on `html2md::parse_html`: converts an HTML string to Markdown.
/// The conversion is a pure function of the input string.
#[verifier::external_body]
fn html_to_markdown(html: &str) -> (r: String)
    ensures
        r@ == markdown_of(html@),
{
    html2md::parse_html(html)
}

/// Converted text, as the service returned it.
///
/// The markup is absent only when the response body could not be read as
/// text; the call itself had already succeeded, so this is "no content",
/// not an error, and both accessors then yield nothing.
#[must_use]
pub struct Text {
    pub html: Option<String>,
}

impl Text {
    /// The raw markup, verbatim, or nothing when no content was stored.
    pub fn html(&self) -> (r: Option<String>)
        ensures
            r == self.html,
    {
        match &self.html {
            Some(h) => Some(h.clone()),
            None => None,
        }
    }

    /// The stored markup converted to lightweight markup, or nothing when no
    /// content was stored. The conversion is recomputed on every call.
    pub fn markdown(&self) -> (r: Option<String>)
        ensures
            r.deep_view() == (match self.html {
                Some(h) => Some(markdown_of(h@)),
                None => None::<Seq<char>>,
            }),
    {
        match &self.html {
            Some(h) => Some(html_to_markdown(h.as_str())),
            None => None,
        }
    }
}

/// A transport-level failure, as plain values: its own description and the
/// descriptions of its chain of underlying causes, outermost first.
pub struct TransportError {
    pub message: String,
    pub causes: Vec<String>,
}

/// The one failure the library propagates: the conversion could not be
/// carried out, for the carried transport-level reason.
pub enum Error {
    FailedToConvert(TransportError),
}

/// The diagnostic paragraphs for a cause chain: one `Caused by` paragraph
/// per description, in order.
pub open spec fn caused_by_lines(descs: Seq<Seq<char>>) -> Seq<char>
    decreases descs.len(),
{
    if descs.len() == 0 {
        Seq::empty()
    } else {
        "Caused by:\n\t"@ + descs[0] + "\n"@ + caused_by_lines(descs.drop_first())
    }
}

/// The full diagnostic rendering of a conversion failure: the fixed first
/// line, then the transport failure's description and each of its causes as
/// `Caused by` paragraphs.
pub open spec fn render_spec(message: Seq<char>, causes: Seq<Seq<char>>) -> Seq<char> {
    "Failed to convert given text\n\n"@ + caused_by_lines(seq![message] + causes)
}

proof fn lemma_caused_by_snoc(descs: Seq<Seq<char>>, d: Seq<char>)
    ensures
        caused_by_lines(descs.push(d)) == caused_by_lines(descs) + "Caused by:\n\t"@ + d + "\n"@,
    decreases descs.len(),
{
    if descs.len() == 0 {
        assert(descs.push(d).drop_first() =~= Seq::<Seq<char>>::empty());
        assert(caused_by_lines(Seq::<Seq<char>>::empty()) == Seq::<char>::empty());
        assert(descs =~= Seq::<Seq<char>>::empty());
        assert(descs.push(d)[0] == d);
        assert(caused_by_lines(descs.push(d)) =~= caused_by_lines(descs) + "Caused by:\n\t"@ + d
            + "\n"@);
    } else {
        lemma_caused_by_snoc(descs.drop_first(), d);
        assert(descs.push(d).drop_first() =~= descs.drop_first().push(d));
        assert(caused_by_lines(descs.push(d)) =~= caused_by_lines(descs) + "Caused by:\n\t"@ + d
            + "\n"@);
    }
}

impl Error {
    /// The diagnostic rendering: first the fixed message
    /// `Failed to convert given text`, then one `Caused by` paragraph for the
    /// transport failure and one for each of its underlying causes.
    pub fn render(&self) -> (r: String)
        ensures
            (match self {
                Error::FailedToConvert(te) => r@ == render_spec(
                    te.message@,
                    te.causes.deep_view(),
                ),
            }),
    {
        let Error::FailedToConvert(te) = self;
        let mut out = String::from_str("Failed to convert given text\n\n");
        out.append("Caused by:\n\t");
        out.append(te.message.as_str());
        out.append("\n");
        proof {
            let ghost chain = seq![te.message@] + te.causes.deep_view().take(0);
            assert(chain.drop_first() =~= Seq::<Seq<char>>::empty());
            assert(caused_by_lines(Seq::<Seq<char>>::empty()) == Seq::<char>::empty());
            assert(chain[0] == te.message@);
            assert(out@ =~= "Failed to convert given text\n\n"@ + caused_by_lines(chain));
        }
        let mut i: usize = 0;
        while i < te.causes.len()
            invariant
                i <= te.causes.len(),
                out@ == "Failed to convert given text\n\n"@ + caused_by_lines(
                    seq![te.message@] + te.causes.deep_view().take(i as int),
                ),
            decreases te.causes.len() - i,
        {
            out.append("Caused by:\n\t");
            out.append(te.causes[i].as_str());
            out.append("\n");
            proof {
                let ghost prev = seq![te.message@] + te.causes.deep_view().take(i as int);
                lemma_caused_by_snoc(prev, te.causes[i as int]@);
                assert(seq![te.message@] + te.causes.deep_view().take(i as int + 1) =~= prev.push(
                    te.causes[i as int]@,
                ));
            }
            i += 1;
        }
        proof {
            assert(te.causes.deep_view().take(te.causes.len() as int) =~= te.causes.deep_view());
        }
        out
    }
}

} // verus!

//! The presenter: what is written out for decoded data in each output
//! format.

use crate::band::{band_color, band_of, Band};
use crate::model::{StationDetail, StationDetailView, StationSummary, StationSummaryView};
use crate::options::OutputFormat;
use crate::paint::{colored, emphasize, emphasized, paint, paint_white, whitened};
use crate::text::{decimal, decimal_string, parse_u32, unsigned_of};
use vstd::prelude::*;
use vstd::string::*;

verus! {

/// The two commands of the client.
#[derive(Clone, Copy, Debug, PartialEq, Eq, Structural)]
pub enum CommandKind {
    /// Stations that match a keyword.
    Search,
    /// The feed of one station.
    Info,
}

/// The shape in which the body of an answer is to be decoded.
#[derive(Clone, Copy, Debug, PartialEq, Eq, Structural)]
pub enum Decoding {
    /// An envelope round a list of station summaries.
    Summaries,
    /// An envelope round one station's detail.
    Detail,
    /// An envelope round any JSON value.
    Untyped,
    /// The body is not read at all.
    Skipped,
}

/// The data of an answer, decoded in one of the shapes of [`Decoding`].
#[derive(Clone, Debug, PartialEq, Eq)]
pub enum Decoded {
    Summaries(Vec<StationSummary>),
    Detail(StationDetail),
    /// The data as JSON text.
    Untyped(String),
    Skipped,
}

/// What a [`Decoded`] holds.
pub enum DecodedView {
    Summaries(Seq<StationSummaryView>),
    Detail(StationDetailView),
    Untyped(Seq<char>),
    Skipped,
}

/// What the presenter asks to be written.
#[derive(Clone, Debug, PartialEq, Eq)]
pub enum Report {
    /// Texts for standard output, in order, each followed by a line break.
    Stdout(Vec<String>),
    /// A diagnostic dump of the whole decoded answer.
    Trace,
}

/// What a [`Report`] holds.
pub enum ReportView {
    Stdout(Seq<Seq<char>>),
    Trace,
}

/// The data do not have the shape that the output format presents.
#[derive(Clone, Copy, Debug, PartialEq, Eq, Structural)]
pub struct ShapeMismatch;

/// What each summary of a list holds.
pub open spec fn summary_views(list: Seq<StationSummary>) -> Seq<StationSummaryView> {
    list.map_values(|s: StationSummary| s@)
}

/// The characters of each text of a list.
pub open spec fn texts(list: Seq<String>) -> Seq<Seq<char>> {
    list.map_values(|t: String| t@)
}

impl View for Decoded {
    type V = DecodedView;

    open spec fn view(&self) -> DecodedView {
        match self {
            Decoded::Summaries(list) => DecodedView::Summaries(summary_views(list@)),
            Decoded::Detail(detail) => DecodedView::Detail(detail@),
            Decoded::Untyped(text) => DecodedView::Untyped(text@),
            Decoded::Skipped => DecodedView::Skipped,
        }
    }
}

impl View for Report {
    type V = ReportView;

    open spec fn view(&self) -> ReportView {
        match self {
            Report::Stdout(list) => ReportView::Stdout(texts(list@)),
            Report::Trace => ReportView::Trace,
        }
    }
}

impl DecodedView {
    /// The shape of these data.
    pub open spec fn shape(self) -> Decoding {
        match self {
            DecodedView::Summaries(_) => Decoding::Summaries,
            DecodedView::Detail(_) => Decoding::Detail,
            DecodedView::Untyped(_) => Decoding::Untyped,
            DecodedView::Skipped => Decoding::Skipped,
        }
    }
}

/// How an index value given as text is shown: a numeral as its value in
/// the colour of the value's band, anything else unchanged in white.
pub open spec fn aqi_text(aqi: Seq<char>) -> Seq<char> {
    match unsigned_of(aqi) {
        Some(n) => colored(decimal(n), band_color(band_of(n as int))),
        None => whitened(aqi),
    }
}

/// How a numeric index value is shown: in the colour of its band.
pub open spec fn banded(aqi: nat) -> Seq<char> {
    colored(decimal(aqi), band_color(band_of(aqi as int)))
}

/// A search result for a human reader: the station's name as a heading,
/// its page, and its index, on three lines.
pub open spec fn summary_text(summary: StationSummaryView) -> Seq<char> {
    emphasized(summary.station.name) + "\n"@ + summary.station.url + "\naqi: "@ + aqi_text(
        summary.aqi,
    )
}

/// A station's feed as one text: the city's name as a heading, its page,
/// and its index, on three lines.
pub open spec fn detail_text(detail: StationDetailView) -> Seq<char> {
    emphasized(detail.city.name) + "\n"@ + detail.city.url + "\naqi: "@ + banded(detail.aqi)
}

/// A station's feed for a human reader: the city's name as a heading and
/// under it, indented, the index.
pub open spec fn info_text(detail: StationDetailView) -> Seq<char> {
    emphasized(detail.city.name) + "\n    aqi: "@ + banded(detail.aqi)
}

/// The search results for a human reader, one text for each.
pub open spec fn summary_texts(list: Seq<StationSummaryView>) -> Seq<Seq<char>> {
    list.map_values(|s: StationSummaryView| summary_text(s))
}

/// The address of each search result's page.
pub open spec fn station_urls(list: Seq<StationSummaryView>) -> Seq<Seq<char>> {
    list.map_values(|s: StationSummaryView| s.station.url)
}

/// The shape to decode an answer in, by command and output format.
pub open spec fn decoding_of(command: CommandKind, format: OutputFormat) -> Decoding {
    match format {
        OutputFormat::Json => Decoding::Untyped,
        OutputFormat::Human => match command {
            CommandKind::Search => Decoding::Summaries,
            CommandKind::Info => Decoding::Detail,
        },
        OutputFormat::Url | OutputFormat::Debug => match command {
            CommandKind::Search => Decoding::Summaries,
            CommandKind::Info => Decoding::Skipped,
        },
    }
}

/// What is written for `decoded` in `format`, or `None` where the format
/// does not present data of that shape.
pub open spec fn presentation(format: OutputFormat, decoded: DecodedView) -> Option<ReportView> {
    match format {
        OutputFormat::Human => match decoded {
            DecodedView::Summaries(list) => Some(ReportView::Stdout(summary_texts(list))),
            DecodedView::Detail(detail) => Some(ReportView::Stdout(seq![info_text(detail)])),
            _ => None,
        },
        OutputFormat::Json => match decoded {
            DecodedView::Untyped(text) => Some(ReportView::Stdout(seq![text])),
            _ => None,
        },
        OutputFormat::Url => match decoded {
            DecodedView::Summaries(list) => Some(ReportView::Stdout(station_urls(list))),
            DecodedView::Skipped => Some(ReportView::Stdout(Seq::empty())),
            _ => None,
        },
        OutputFormat::Debug => match decoded {
            DecodedView::Summaries(_) => Some(ReportView::Trace),
            DecodedView::Skipped => Some(ReportView::Stdout(Seq::empty())),
            _ => None,
        },
    }
}

/// Shows an index value given as text.
pub fn render_aqi(aqi: &str) -> (out: String)
    ensures
        out@ == aqi_text(aqi@),
{
    match parse_u32(aqi) {
        Some(n) => render_banded(n),
        None => paint_white(aqi),
    }
}

/// Shows a numeric index value in the colour of its band.
pub fn render_banded(aqi: u32) -> (out: String)
    ensures
        out@ == banded(aqi as nat),
{
    let digits = decimal_string(aqi);
    paint(digits.as_str(), Band::of(aqi as i64).color())
}

impl StationSummary {
    /// The search result for a human reader.
    pub fn to_string(&self) -> (out: String)
        ensures
            out@ == summary_text(self@),
    {
        let mut out = emphasize(self.station.name.as_str());
        out.append("\n");
        out.append(self.station.url.as_str());
        out.append("\naqi: ");
        let aqi = render_aqi(self.aqi.as_str());
        out.append(aqi.as_str());
        out
    }
}

impl StationDetail {
    /// The feed as one text of three lines: name, page and index.
    pub fn to_string(&self) -> (out: String)
        ensures
            out@ == detail_text(self@),
    {
        let mut out = emphasize(self.city.name.as_str());
        out.append("\n");
        out.append(self.city.url.as_str());
        out.append("\naqi: ");
        let aqi = render_banded(self.aqi);
        out.append(aqi.as_str());
        out
    }

    /// The feed for a human reader: name, and under it the index.
    pub fn headline(&self) -> (out: String)
        ensures
            out@ == info_text(self@),
    {
        let mut out = emphasize(self.city.name.as_str());
        out.append("\n    aqi: ");
        let aqi = render_banded(self.aqi);
        out.append(aqi.as_str());
        out
    }
}

impl Decoded {
    /// The shape of these data.
    pub fn shape(&self) -> (shape: Decoding)
        ensures
            shape == self@.shape(),
    {
        match self {
            Decoded::Summaries(_) => Decoding::Summaries,
            Decoded::Detail(_) => Decoding::Detail,
            Decoded::Untyped(_) => Decoding::Untyped,
            Decoded::Skipped => Decoding::Skipped,
        }
    }
}

/// The shape in which to decode the answer to `command` when the output
/// format is `format`.
pub fn decoding_for(command: CommandKind, format: OutputFormat) -> (shape: Decoding)
    ensures
        shape == decoding_of(command, format),
{
    match format {
        OutputFormat::Json => Decoding::Untyped,
        OutputFormat::Human => match command {
            CommandKind::Search => Decoding::Summaries,
            CommandKind::Info => Decoding::Detail,
        },
        OutputFormat::Url | OutputFormat::Debug => match command {
            CommandKind::Search => Decoding::Summaries,
            CommandKind::Info => Decoding::Skipped,
        },
    }
}

/// One entry per search result: the result for a human reader.
pub fn summary_lines(list: &Vec<StationSummary>) -> (lines: Vec<String>)
    ensures
        texts(lines@) == summary_texts(summary_views(list@)),
{
    let mut lines: Vec<String> = Vec::new();
    let mut i: usize = 0;
    while i < list.len()
        invariant
            0 <= i <= list.len(),
            lines@.len() == i,
            forall|k: int| 0 <= k < i ==> (#[trigger] lines@[k])@ == summary_text(list@[k]@),
        decreases list.len() - i,
    {
        lines.push(list[i].to_string());
        i = i + 1;
    }
    assert(texts(lines@) =~= summary_texts(summary_views(list@)));
    lines
}

/// One entry per search result: the address of the station's page.
pub fn url_lines(list: &Vec<StationSummary>) -> (lines: Vec<String>)
    ensures
        texts(lines@) == station_urls(summary_views(list@)),
{
    let mut lines: Vec<String> = Vec::new();
    let mut i: usize = 0;
    while i < list.len()
        invariant
            0 <= i <= list.len(),
            lines@.len() == i,
            forall|k: int| 0 <= k < i ==> (#[trigger] lines@[k])@ == list@[k]@.station.url,
        decreases list.len() - i,
    {
        lines.push(list[i].station.url.clone());
        i = i + 1;
    }
    assert(texts(lines@) =~= station_urls(summary_views(list@)));
    lines
}

/// Presents decoded data in an output format.
///
/// Fails exactly where the format does not present data of that shape;
/// data decoded in the shape that [`decoding_for`] names are always
/// presented.
pub fn present(format: OutputFormat, decoded: &Decoded) -> (report: Result<Report, ShapeMismatch>)
    ensures
        match report {
            Ok(r) => presentation(format, decoded@) == Some(r@),
            Err(_) => presentation(format, decoded@) is None,
        },
{
    match format {
        OutputFormat::Human => match decoded {
            Decoded::Summaries(list) => {
                Ok(Report::Stdout(summary_lines(list)))
            },
            Decoded::Detail(detail) => {
                let mut lines: Vec<String> = Vec::new();
                lines.push(detail.headline());
                assert(texts(lines@) =~= seq![info_text(detail@)]);
                Ok(Report::Stdout(lines))
            },
            _ => Err(ShapeMismatch),
        },
        OutputFormat::Json => match decoded {
            Decoded::Untyped(text) => {
                let mut lines: Vec<String> = Vec::new();
                lines.push(text.clone());
                assert(texts(lines@) =~= seq![text@]);
                Ok(Report::Stdout(lines))
            },
            _ => Err(ShapeMismatch),
        },
        OutputFormat::Url => match decoded {
            Decoded::Summaries(list) => {
                Ok(Report::Stdout(url_lines(list)))
            },
            Decoded::Skipped => {
                let lines: Vec<String> = Vec::new();
                assert(texts(lines@) =~= Seq::<Seq<char>>::empty());
                Ok(Report::Stdout(lines))
            },
            _ => Err(ShapeMismatch),
        },
        OutputFormat::Debug => match decoded {
            Decoded::Summaries(_) => Ok(Report::Trace),
            Decoded::Skipped => {
                let lines: Vec<String> = Vec::new();
                assert(texts(lines@) =~= Seq::<Seq<char>>::empty());
                Ok(Report::Stdout(lines))
            },
            _ => Err(ShapeMismatch),
        },
    }
}

/// A station's feed is shown by its city and its index alone: whether
/// there is a forecast, and what else the feed holds, changes nothing.
pub proof fn feed_is_shown_by_city_and_index(a: StationDetailView, b: StationDetailView)
    requires
        a.city == b.city,
        a.aqi == b.aqi,
    ensures
        info_text(a) == info_text(b),
        detail_text(a) == detail_text(b),
        presentation(OutputFormat::Human, DecodedView::Detail(a)) == presentation(
            OutputFormat::Human,
            DecodedView::Detail(b),
        ),
{
}

/// Data decoded in the shape that the command and the format call for are
/// always presented.
pub proof fn expected_shape_is_presented(
    command: CommandKind,
    format: OutputFormat,
    decoded: DecodedView,
)
    requires
        decoded.shape() == decoding_of(command, format),
    ensures
        presentation(format, decoded) is Some,
{
}

} // verus!

//! How much room things take on the screen.

use vstd::prelude::*;
use vstd::utf8::{encode_utf8, is_ascii_chars_encode_utf8};

use crate::outside::{edges, line_count, line_total, line_width, paragraph_width};
use crate::saturate::SaturateToU16;
use crate::state::{
    OutputView, RunExperimentOutput, RunExperimentView, RunExperiments, Tracing,
};
use crate::trace::message_text;

verus! {

/// The lines around a part of the screen.
#[derive(Debug, Copy, Clone, PartialEq, Eq, Structural)]
pub enum BorderKind {
    Plain,
    Double,
}

/// The part of the screen that takes the keys has a double border.
pub fn selected_border(selected: bool) -> (r: BorderKind)
    ensures
        r == if selected {
            BorderKind::Double
        } else {
            BorderKind::Plain
        },
{
    if selected {
        BorderKind::Double
    } else {
        BorderKind::Plain
    }
}

/// What stands before the selected crate.
pub const HIGHLIGHT_SYMBOL: &'static str = ">>";

/// What a border takes on both sides together.
pub const BORDER_WIDTH: u16 = 2;

/// What the symbol before the selected crate takes, and what is left free behind a name.
pub const SYMBOL_WIDTH: u16 = 2;

/// The length of a text in UTF-8.
pub open spec fn byte_len(text: Seq<char>) -> usize {
    encode_utf8(text).len() as usize
}

/// The length of the longest name.
pub open spec fn longest_name(experiments: Seq<RunExperimentView>) -> usize
    decreases experiments.len(),
{
    if experiments.len() == 0 {
        0
    } else {
        let before = longest_name(experiments.drop_last());
        let last = byte_len(experiments.last().name);
        if before < last {
            last
        } else {
            before
        }
    }
}

/// How wide the list of crates has to be.
pub open spec fn list_width(experiments: Seq<RunExperimentView>) -> int {
    longest_name(experiments).saturated() + BORDER_WIDTH + SYMBOL_WIDTH + SYMBOL_WIDTH
}

impl RunExperiments {
    /// The length of the longest name.
    fn longest(&self) -> (r: usize)
        ensures
            r == longest_name(self@.experiments),
    {
        let ghost views = self@.experiments;
        let mut longest: usize = 0;
        let mut i: usize = 0;
        assert(views.take(0) =~= Seq::empty());
        while i < self.experiments.len()
            invariant
                i <= self.experiments.len(),
                views == self@.experiments,
                longest == longest_name(views.take(i as int)),
            decreases self.experiments.len() - i,
        {
            assert(views.take(i + 1).drop_last() =~= views.take(i as int));
            assert(views[i as int] == self.experiments@[i as int]@);
            let length: usize = self.experiments[i].name.as_str().len();
            if longest < length {
                longest = length;
            }
            i = i + 1;
        }
        assert(views.take(views.len() as int) =~= views);
        longest
    }

    /// How wide the list of crates has to be, with its border, the symbol before the selected one
    /// and as much behind the names.
    pub fn crate_list_width(&self) -> (r: u16)
        requires
            list_width(self@.experiments) <= u16::MAX,
        ensures
            r == list_width(self@.experiments),
    {
        self.longest().saturate_to_u16() + BORDER_WIDTH + SYMBOL_WIDTH + SYMBOL_WIDTH
    }

    /// As [`RunExperiments::crate_list_width`], but nothing where the list would be wider than can
    /// be counted.
    pub fn try_crate_list_width(&self) -> (r: Option<u16>)
        ensures
            match r {
                Some(width) => width == list_width(self@.experiments),
                None => list_width(self@.experiments) > u16::MAX,
            },
    {
        let names: u16 = self.longest().saturate_to_u16();
        if names as u32 + BORDER_WIDTH as u32 + SYMBOL_WIDTH as u32 + SYMBOL_WIDTH as u32 <= 65535 {
            Some(self.crate_list_width())
        } else {
            None
        }
    }
}

/// How the output of an experiment is laid out: the room it takes as a whole, and the height of
/// each of its four parts, one below the other.
#[derive(Debug, Copy, Clone, PartialEq, Eq, Structural)]
pub struct DetailLayout {
    pub width: u16,
    pub height: u16,
    pub original_stdout: u16,
    pub original_stderr: u16,
    pub stdout: u16,
    pub stderr: u16,
}

/// The larger of two.
pub open spec fn larger(a: u16, b: u16) -> u16 {
    if a < b {
        b
    } else {
        a
    }
}

fn largest(a: u16, b: u16) -> (r: u16)
    ensures
        r == larger(a, b),
{
    if a < b {
        b
    } else {
        a
    }
}

/// The width of a text in its border.
pub open spec fn part_width(text: Seq<char>) -> u16 {
    paragraph_width(text, true).saturated()
}

/// The height of a text in its border.
pub open spec fn part_height(text: Seq<char>) -> u16 {
    ((line_total(text) + edges(true)) as usize).saturated()
}

/// The height of the four parts together.
pub open spec fn detail_height(original_output: OutputView, output: OutputView) -> int {
    part_height(original_output.stdout) + part_height(original_output.stderr) + part_height(
        output.stdout,
    ) + part_height(output.stderr)
}

/// How the output of an experiment is laid out on an area: as wide as its widest part and as
/// high as all of them together, but not smaller than the area.
pub open spec fn detail_view(
    original_output: OutputView,
    output: OutputView,
    area_width: u16,
    area_height: u16,
) -> DetailLayout {
    let left = larger(part_width(original_output.stdout), part_width(original_output.stderr));
    let right = larger(part_width(output.stdout), part_width(output.stderr));
    DetailLayout {
        width: larger(larger(left, right), area_width),
        height: larger(detail_height(original_output, output) as u16, area_height),
        original_stdout: part_height(original_output.stdout),
        original_stderr: part_height(original_output.stderr),
        stdout: part_height(output.stdout),
        stderr: part_height(output.stderr),
    }
}

/// Lays the output of an experiment out.
pub fn detail_layout(
    original_output: &RunExperimentOutput,
    output: &RunExperimentOutput,
    area_width: u16,
    area_height: u16,
) -> (r: DetailLayout)
    requires
        detail_height(original_output@, output@) <= u16::MAX,
    ensures
        r == detail_view(original_output@, output@, area_width, area_height),
{
    let a: usize = line_width(&original_output.stdout, true);
    let b: usize = line_width(&original_output.stderr, true);
    let c: usize = line_width(&output.stdout, true);
    let d: usize = line_width(&output.stderr, true);
    let mut widest: usize = a;
    if widest < b {
        widest = b;
    }
    if widest < c {
        widest = c;
    }
    if widest < d {
        widest = d;
    }
    let width: u16 = widest.saturate_to_u16();
    let original_stdout: u16 = line_count(&original_output.stdout, true, width).saturate_to_u16();
    let original_stderr: u16 = line_count(&original_output.stderr, true, width).saturate_to_u16();
    let stdout: u16 = line_count(&output.stdout, true, width).saturate_to_u16();
    let stderr: u16 = line_count(&output.stderr, true, width).saturate_to_u16();
    let height: u16 = original_stdout + original_stderr + stdout + stderr;
    DetailLayout {
        width: largest(width, area_width),
        height: largest(height, area_height),
        original_stdout,
        original_stderr,
        stdout,
        stderr,
    }
}

/// As [`detail_layout`], but nothing where the parts together are higher than can be counted.
pub fn try_detail_layout(
    original_output: &RunExperimentOutput,
    output: &RunExperimentOutput,
    area_width: u16,
    area_height: u16,
) -> (r: Option<DetailLayout>)
    ensures
        r == if detail_height(original_output@, output@) <= u16::MAX {
            Some(detail_view(original_output@, output@, area_width, area_height))
        } else {
            None
        },
{
    let a: u16 = line_count(&original_output.stdout, true, 1).saturate_to_u16();
    let b: u16 = line_count(&original_output.stderr, true, 1).saturate_to_u16();
    let c: u16 = line_count(&output.stdout, true, 1).saturate_to_u16();
    let d: u16 = line_count(&output.stderr, true, 1).saturate_to_u16();
    if a as u32 + b as u32 + c as u32 + d as u32 <= 65535 {
        Some(detail_layout(original_output, output, area_width, area_height))
    } else {
        None
    }
}

/// The room that the reports take.
#[derive(Debug, Copy, Clone, PartialEq, Eq, Structural)]
pub struct TraceLayout {
    pub width: u16,
    pub height: u16,
}

/// The room that a text takes: as wide as its widest line, and as high as it has lines. A text
/// that is not wide at all is not high either.
pub open spec fn text_view(text: Seq<char>) -> TraceLayout {
    let width = paragraph_width(text, false).saturated();
    TraceLayout {
        width,
        height: if width == 0 {
            0
        } else {
            (line_total(text) as usize).saturated()
        },
    }
}

impl Tracing {
    /// The room that the messages take.
    pub fn layout(&self) -> (r: TraceLayout)
        ensures
            r == text_view(message_text(self@.traces)),
    {
        let messages = self.messages();
        let width: u16 = line_width(&messages, false).saturate_to_u16();
        let height: u16 = line_count(&messages, false, width).saturate_to_u16();
        TraceLayout { width, height }
    }
}

/// Every part of the output has its room: together they are not higher than the whole, none of
/// them is wider, and the whole fills the area.
pub proof fn law_details_have_room(
    original_output: OutputView,
    output: OutputView,
    area_width: u16,
    area_height: u16,
)
    requires
        detail_height(original_output, output) <= u16::MAX,
    ensures
        ({
            let r = detail_view(original_output, output, area_width, area_height);
            &&& r.original_stdout + r.original_stderr + r.stdout + r.stderr <= r.height
            &&& r.height >= area_height
            &&& r.width >= area_width
            &&& r.width >= part_width(original_output.stdout)
            &&& r.width >= part_width(original_output.stderr)
            &&& r.width >= part_width(output.stdout)
            &&& r.width >= part_width(output.stderr)
        }),
{
}

/// The symbol before the selected crate takes the room that is kept for it.
pub proof fn law_symbol_has_room()
    ensures
        byte_len(HIGHLIGHT_SYMBOL@) == SYMBOL_WIDTH,
{
    reveal_strlit(">>");
    is_ascii_chars_encode_utf8(HIGHLIGHT_SYMBOL@);
}

} // verus!

//! Descriptors of the widgets that a tool shows in the tool options bar. The
//! host draws them; this library only says what they hold.

use crate::color::ToolColorOptions;
use vstd::prelude::*;

verus! {

#[derive(Clone, Copy, Debug, PartialEq, Eq, Hash, Structural)]
pub enum SeparatorType {
    Related,
    Unrelated,
    Section,
}

/// A field for a number.
#[derive(Clone, Copy, Debug, PartialEq, Eq)]
pub struct NumberInput {
    pub label: &'static str,
    pub unit: &'static str,
    /// The number shown; an empty field where there is none to show.
    pub value: Option<i64>,
    pub min: Option<i64>,
    pub max: Option<i64>,
    /// Least width in pixels; zero leaves the width to the host.
    pub min_width: u32,
    pub disabled: bool,
}

pub struct NumberInputView {
    pub label: Seq<char>,
    pub unit: Seq<char>,
    pub value: Option<i64>,
    pub min: Option<i64>,
    pub max: Option<i64>,
    pub min_width: u32,
    pub disabled: bool,
}

impl View for NumberInput {
    type V = NumberInputView;

    open spec fn view(&self) -> NumberInputView {
        NumberInputView {
            label: self.label@,
            unit: self.unit@,
            value: self.value,
            min: self.min,
            max: self.max,
            min_width: self.min_width,
            disabled: self.disabled,
        }
    }
}

/// A choice of one of several entries.
#[derive(Debug, PartialEq, Eq)]
pub struct RadioInput {
    pub entries: Vec<&'static str>,
    /// The entry that is chosen, counted from zero; none where no entry applies.
    pub selected_index: Option<u32>,
    pub disabled: bool,
}

pub struct RadioInputView {
    pub entries: Seq<Seq<char>>,
    pub selected_index: Option<u32>,
    pub disabled: bool,
}

impl View for RadioInput {
    type V = RadioInputView;

    open spec fn view(&self) -> RadioInputView {
        RadioInputView {
            entries: Seq::new(self.entries@.len(), |i: int| self.entries@[i]@),
            selected_index: self.selected_index,
            disabled: self.disabled,
        }
    }
}

#[derive(Debug, PartialEq, Eq)]
pub enum Widget {
    /// The choice of a colour for one style slot.
    Color { label: &'static str, options: ToolColorOptions },
    Number(NumberInput),
    Radio(RadioInput),
    Separator(SeparatorType),
}

pub enum WidgetView {
    Color { label: Seq<char>, options: ToolColorOptions },
    Number(NumberInputView),
    Radio(RadioInputView),
    Separator(SeparatorType),
}

impl View for Widget {
    type V = WidgetView;

    open spec fn view(&self) -> WidgetView {
        match self {
            Widget::Color { label, options } => WidgetView::Color { label: label@, options: *options },
            Widget::Number(input) => WidgetView::Number(input@),
            Widget::Radio(input) => WidgetView::Radio(input@),
            Widget::Separator(kind) => WidgetView::Separator(*kind),
        }
    }
}

/// One row of widgets.
#[derive(Debug, PartialEq, Eq)]
pub struct Layout(pub Vec<Widget>);

impl View for Layout {
    type V = Seq<WidgetView>;

    open spec fn view(&self) -> Seq<WidgetView> {
        Seq::new(self.0@.len(), |i: int| self.0@[i]@)
    }
}

impl Layout {
    pub fn new() -> (layout: Layout)
        ensures
            layout@ == Seq::<WidgetView>::empty(),
    {
        let layout = Layout(Vec::new());
        assert(layout@ =~= Seq::<WidgetView>::empty());
        layout
    }

    /// The row with one more widget at its end.
    pub fn with(self, widget: Widget) -> (layout: Layout)
        ensures
            layout@ == self@.push(widget@),
    {
        let mut widgets = self.0;
        widgets.push(widget);
        let layout = Layout(widgets);
        assert(layout@ =~= self@.push(widget@));
        layout
    }
}

/// The largest whole number that a number field takes: two to the power of 53.
pub const LARGEST_INPUT: i64 = 9007199254740992;

} // verus!

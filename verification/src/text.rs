//! The text of buttons and labels.
use crate::types::HostKey;
use vstd::prelude::*;
use vstd::string::StringExecFns;

verus! {

/// One run of text with a look of its own. Colour, size and font are kept by
/// the host; a run without one of them takes the default of its surroundings.
#[derive(Debug)]
pub struct RichTextEntry {
    pub text: String,
    pub color: Option<HostKey>,
    pub size: Option<HostKey>,
    pub font: Option<HostKey>,
}

/// A run of text as contracts read it.
pub struct RichTextModel {
    pub text: Seq<char>,
    pub color: Option<HostKey>,
    pub size: Option<HostKey>,
    pub font: Option<HostKey>,
}

impl View for RichTextEntry {
    type V = RichTextModel;

    open spec fn view(&self) -> RichTextModel {
        RichTextModel { text: self.text@, color: self.color, size: self.size, font: self.font }
    }
}

impl Clone for RichTextEntry {
    fn clone(&self) -> (copy: Self)
        ensures
            copy == *self,
    {
        RichTextEntry {
            text: self.text.clone(),
            color: self.color,
            size: self.size,
            font: self.font,
        }
    }
}

impl Default for RichTextEntry {
    fn default() -> (entry: Self)
        ensures
            entry@ == (RichTextModel {
                text: Seq::<char>::empty(),
                color: None,
                size: None,
                font: None,
            }),
    {
        RichTextEntry { text: String::new(), color: None, size: None, font: None }
    }
}

impl RichTextEntry {
    /// A run of text with the default look.
    pub fn new(text: &str) -> (entry: Self)
        ensures
            entry@ == (RichTextModel { text: text@, color: None, size: None, font: None }),
    {
        RichTextEntry { text: text.to_owned(), color: None, size: None, font: None }
    }

    /// A run of text in a colour of its own.
    pub fn new_color(text: &str, color: HostKey) -> (entry: Self)
        ensures
            entry@ == (RichTextModel { text: text@, color: Some(color), size: None, font: None }),
    {
        RichTextEntry { text: text.to_owned(), color: Some(color), size: None, font: None }
    }
}

/// The text of a button or a label: plain, or a sequence of runs.
#[derive(Debug)]
pub enum WidgetLabel {
    PlainText(String),
    RichText(Vec<RichTextEntry>),
}

/// A label as contracts read it.
pub enum LabelModel {
    PlainText(Seq<char>),
    RichText(Seq<RichTextModel>),
}

/// The runs of a rich text as contracts read them.
pub open spec fn run_models(entries: Seq<RichTextEntry>) -> Seq<RichTextModel> {
    Seq::new(entries.len(), |i: int| entries[i]@)
}

/// The texts of `runs` in order, each followed by one space.
pub open spec fn spaced_text(runs: Seq<RichTextModel>) -> Seq<char>
    decreases runs.len(),
{
    if runs.len() == 0 {
        Seq::<char>::empty()
    } else {
        spaced_text(runs.drop_last()) + runs.last().text + seq![' ']
    }
}

impl LabelModel {
    /// The label without its looks: a plain text as it is, a rich text as
    /// its runs with a space behind each.
    pub open spec fn debug_text(self) -> Seq<char> {
        match self {
            LabelModel::PlainText(text) => text,
            LabelModel::RichText(runs) => spaced_text(runs),
        }
    }
}

impl View for WidgetLabel {
    type V = LabelModel;

    open spec fn view(&self) -> LabelModel {
        match *self {
            WidgetLabel::PlainText(text) => LabelModel::PlainText(text@),
            WidgetLabel::RichText(entries) => LabelModel::RichText(run_models(entries@)),
        }
    }
}

impl Clone for WidgetLabel {
    fn clone(&self) -> (copy: Self)
        ensures
            copy@ == self@,
    {
        match self {
            WidgetLabel::PlainText(text) => WidgetLabel::PlainText(text.clone()),
            WidgetLabel::RichText(entries) => WidgetLabel::RichText(clone_runs(entries)),
        }
    }
}

impl Default for WidgetLabel {
    fn default() -> (label: Self)
        ensures
            label@ == LabelModel::PlainText(Seq::<char>::empty()),
    {
        WidgetLabel::PlainText(String::new())
    }
}

/// Copies the runs of a rich text.
fn clone_runs(entries: &Vec<RichTextEntry>) -> (copy: Vec<RichTextEntry>)
    ensures
        copy@ == entries@,
{
    let mut copy: Vec<RichTextEntry> = Vec::new();
    let mut i: usize = 0;
    while i < entries.len()
        invariant
            i <= entries.len(),
            copy@ == entries@.take(i as int),
        decreases entries.len() - i,
    {
        copy.push(entries[i].clone());
        proof {
            assert(entries@.take(i + 1) == entries@.take(i as int).push(entries@[i as int]));
        }
        i += 1;
    }
    proof {
        assert(entries@.take(entries.len() as int) == entries@);
    }
    copy
}

impl WidgetLabel {
    /// The label as one plain string, for logs and debug output.
    pub fn debug_text(&self) -> (text: String)
        ensures
            text@ == self@.debug_text(),
    {
        match self {
            WidgetLabel::PlainText(text) => text.clone(),
            WidgetLabel::RichText(entries) => {
                let mut output = String::new();
                let mut i: usize = 0;
                while i < entries.len()
                    invariant
                        i <= entries.len(),
                        output@ == spaced_text(run_models(entries@.take(i as int))),
                    decreases entries.len() - i,
                {
                    proof {
                        reveal_strlit(" ");
                        let before = run_models(entries@.take(i as int));
                        let after = run_models(entries@.take(i + 1));
                        assert(after.drop_last() == before);
                        assert(after.last() == entries@[i as int]@);
                        assert(" "@ == seq![' ']);
                    }
                    output.append(entries[i].text.as_str());
                    output.append(" ");
                    i += 1;
                }
                proof {
                    assert(entries@.take(entries.len() as int) == entries@);
                }
                output
            },
        }
    }
}

/// What can become the text of a menu entry: string slices, owned strings,
/// runs of rich text and labels themselves.
pub trait IntoWidgetLabel: Sized {
    /// The label that `self` turns into.
    spec fn label(self) -> LabelModel;

    /// Builds the label.
    fn into_widget_label(self) -> (label: WidgetLabel)
        ensures
            label@ == self.label(),
    ;
}

impl IntoWidgetLabel for &str {
    open spec fn label(self) -> LabelModel {
        LabelModel::PlainText(self@)
    }

    fn into_widget_label(self) -> (label: WidgetLabel) {
        WidgetLabel::PlainText(self.to_owned())
    }
}

impl IntoWidgetLabel for &String {
    open spec fn label(self) -> LabelModel {
        LabelModel::PlainText(self@)
    }

    fn into_widget_label(self) -> (label: WidgetLabel) {
        WidgetLabel::PlainText(self.clone())
    }
}

impl IntoWidgetLabel for String {
    open spec fn label(self) -> LabelModel {
        LabelModel::PlainText(self@)
    }

    fn into_widget_label(self) -> (label: WidgetLabel) {
        WidgetLabel::PlainText(self)
    }
}

impl IntoWidgetLabel for Vec<RichTextEntry> {
    open spec fn label(self) -> LabelModel {
        LabelModel::RichText(run_models(self@))
    }

    fn into_widget_label(self) -> (label: WidgetLabel) {
        WidgetLabel::RichText(self)
    }
}

impl<const N: usize> IntoWidgetLabel for [RichTextEntry; N] {
    open spec fn label(self) -> LabelModel {
        LabelModel::RichText(run_models(self@))
    }

    fn into_widget_label(self) -> (label: WidgetLabel) {
        let mut entries: Vec<RichTextEntry> = Vec::new();
        let mut i: usize = 0;
        while i < N
            invariant
                i <= N,
                self@.len() == N,
                entries@ == self@.take(i as int),
            decreases N - i,
        {
            entries.push(self[i].clone());
            proof {
                assert(self@.take(i + 1) == self@.take(i as int).push(self@[i as int]));
            }
            i += 1;
        }
        proof {
            assert(self@.take(N as int) == self@);
        }
        WidgetLabel::RichText(entries)
    }
}

impl IntoWidgetLabel for WidgetLabel {
    open spec fn label(self) -> LabelModel {
        self@
    }

    fn into_widget_label(self) -> (label: WidgetLabel) {
        self
    }
}

} // verus!

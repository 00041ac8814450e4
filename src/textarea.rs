//! A text field of the wizard: its lines, whether it has focus, whether it
//! has ever had focus, and the rules on what it holds.

use vstd::prelude::*;
use crate::text::{copy_lines, join_lines, join_newline};

verus! {

/// A text field. Editing its text is the terminal widget's work; the field
/// holds the lines the widget produced and decides what it accepts.
pub struct LabeledTextArea {
    pub lines: Vec<String>,
    pub active: bool,
    pub touched: bool,
    pub single_line: bool,
    pub max_char_count: Option<usize>,
    pub required: bool,
}

impl LabeledTextArea {
    /// The text of the field: its lines joined by newlines.
    pub open spec fn text_view(&self) -> Seq<char> {
        join_lines(self.lines@)
    }

    /// Whether the field holds an acceptable text: not empty when required,
    /// and no longer than its limit when it has one.
    pub open spec fn valid(&self) -> bool {
        &&& (self.required ==> self.text_view().len() > 0)
        &&& match self.max_char_count {
            Some(m) => self.text_view().len() <= m,
            None => true,
        }
    }

    /// An empty field; one that starts with focus counts as touched.
    pub fn new(
        required: bool,
        single_line: bool,
        max_char_count: Option<usize>,
        active: bool,
    ) -> (r: LabeledTextArea)
        ensures
            r.lines@.len() == 1,
            r.lines@[0]@.len() == 0,
            r.text_view().len() == 0,
            r.active == active,
            r.touched == active,
            r.single_line == single_line,
            r.max_char_count == max_char_count,
            r.required == required,
    {
        let mut lines: Vec<String> = Vec::new();
        lines.push(String::new());
        let r = LabeledTextArea {
            lines,
            active,
            touched: active,
            single_line,
            max_char_count,
            required,
        };
        assert(crate::text::views(r.lines@) =~= seq![Seq::<char>::empty()]);
        r
    }

    /// The field with the focus given or taken; it counts as touched
    /// exactly when it starts with the focus.
    pub fn with_active(self, active: bool) -> (r: LabeledTextArea)
        ensures
            r == (LabeledTextArea { active, touched: active, ..self }),
    {
        LabeledTextArea { active, touched: active, ..self }
    }

    /// The field with a limit on its characters.
    pub fn with_max_char_count(self, max_char_count: usize) -> (r: LabeledTextArea)
        ensures
            r == (LabeledTextArea { max_char_count: Some(max_char_count), ..self }),
    {
        LabeledTextArea { max_char_count: Some(max_char_count), ..self }
    }

    /// The field taking one line only, or several.
    pub fn with_single_line(self, single_line: bool) -> (r: LabeledTextArea)
        ensures
            r == (LabeledTextArea { single_line, ..self }),
    {
        LabeledTextArea { single_line, ..self }
    }

    /// Whether the field holds an acceptable text.
    pub fn is_valid(&self) -> (r: bool)
        ensures
            r == self.valid(),
    {
        let n = self.char_count();
        let long_enough = !self.required || n > 0;
        let short_enough = match self.max_char_count {
            Some(m) => n <= m,
            None => true,
        };
        long_enough && short_enough
    }

    /// Gives or takes the focus; a field that gets it counts as touched
    /// from then on.
    pub fn set_active(&mut self, active: bool)
        ensures
            *final(self) == (LabeledTextArea {
                active,
                touched: old(self).touched || active,
                ..*old(self)
            }),
    {
        self.active = active;
        if active {
            self.touched = true;
        }
    }

    pub fn is_active(&self) -> (r: bool)
        ensures
            r == self.active,
    {
        self.active
    }

    /// Whether the field has ever had the focus.
    pub fn is_touched(&self) -> (r: bool)
        ensures
            r == self.touched,
    {
        self.touched
    }

    pub fn set_max_char_count(&mut self, max_char_count: usize)
        ensures
            *final(self) == (LabeledTextArea {
                max_char_count: Some(max_char_count),
                ..*old(self)
            }),
    {
        self.max_char_count = Some(max_char_count);
    }

    /// Takes the lines that the editing widget produced.
    pub fn set_lines(&mut self, lines: &Vec<String>)
        ensures
            final(self).lines@ == lines@,
            final(self).active == old(self).active,
            final(self).touched == old(self).touched,
            final(self).single_line == old(self).single_line,
            final(self).max_char_count == old(self).max_char_count,
            final(self).required == old(self).required,
    {
        self.lines = copy_lines(lines);
    }

    /// The lines of the field.
    pub fn lines(&self) -> (r: &Vec<String>)
        ensures
            r@ == self.lines@,
    {
        &self.lines
    }

    /// The text of the field: its lines joined by newlines.
    pub fn text(&self) -> (r: String)
        ensures
            r@ == self.text_view(),
    {
        join_newline(&self.lines)
    }

    /// The characters of the field, each line break counting as one.
    pub fn char_count(&self) -> (r: usize)
        ensures
            r == self.text_view().len(),
    {
        let t = self.text();
        t.as_str().unicode_len()
    }

    /// Whether typing one more character is accepted: the field has the
    /// focus and is below its limit.
    pub fn accepts_char(&self) -> (r: bool)
        ensures
            r == (self.active && match self.max_char_count {
                Some(m) => self.text_view().len() < m,
                None => true,
            }),
    {
        if !self.active {
            return false;
        }
        match self.max_char_count {
            Some(m) => self.char_count() < m,
            None => true,
        }
    }

    /// Whether a line break typed with a modifier is accepted: the field has
    /// the focus and takes several lines.
    pub fn accepts_newline(&self) -> (r: bool)
        ensures
            r == (self.active && !self.single_line),
    {
        self.active && !self.single_line
    }

    /// Whether any other edit is accepted: the field has the focus.
    pub fn accepts_edit(&self) -> (r: bool)
        ensures
            r == self.active,
    {
        self.active
    }

    /// The rows the field takes on screen: its lines, at least one, and
    /// three rows of frame; capped at the largest `u16`.
    pub fn get_height(&self) -> (r: u16)
        ensures
            r == crate::commit::cap_u16(
                (if self.lines@.len() > 1 {
                    self.lines@.len()
                } else {
                    1
                }) + 3,
            ),
    {
        let n = self.lines.len();
        let rows: usize = if n > 1 {
            n
        } else {
            1
        };
        if rows > 65532 {
            65535
        } else {
            (rows + 3) as u16
        }
    }
}

} // verus!

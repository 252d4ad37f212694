use vstd::prelude::*;

verus! {

/// A labelled text input whose label is highlighted while it has focus.
pub struct FloatingInput {
    pub value: String,
    pub focused: bool,
    pub label: String,
}

impl FloatingInput {
    /// An empty, unfocused input with the given label.
    pub fn new(label: &str) -> (r: FloatingInput)
        ensures
            r.value@ == Seq::<char>::empty(),
            !r.focused,
            r.label@ == label@,
    {
        FloatingInput { value: String::new(), focused: false, label: String::from_str(label) }
    }

    /// Replaces the text; focus and label are kept.
    pub fn set_value(&mut self, value: String)
        ensures
            *final(self) == (FloatingInput { value, ..*old(self) }),
    {
        self.value = value;
    }

    /// Records whether the input has focus; text and label are kept.
    pub fn set_focused(&mut self, focused: bool)
        ensures
            *final(self) == (FloatingInput { focused, ..*old(self) }),
    {
        self.focused = focused;
    }

    /// The current text.
    pub fn value(&self) -> (r: &str)
        ensures
            r@ == self.value@,
    {
        self.value.as_str()
    }
}

} // verus!

//! The screens of the client and the form that creates an inbox.

use vstd::prelude::*;

verus! {

/// The screen that is shown.
#[derive(Debug, Clone, Copy, PartialEq, Eq, Structural)]
pub enum Screen {
    InboxList,
    InboxShow,
    InboxCreate,
}

/// One input of the create form.
#[derive(Debug, Clone, Copy, PartialEq, Eq, Structural)]
pub enum FormField {
    Name,
    Source,
    Summary,
    Payload,
    Metadata,
}

/// The number of inputs of the create form.
pub const FIELD_COUNT: usize = 5;

impl FormField {
    /// The position of the field in the form, from 0 to 4.
    pub open spec fn index(self) -> nat {
        match self {
            FormField::Name => 0,
            FormField::Source => 1,
            FormField::Summary => 2,
            FormField::Payload => 3,
            FormField::Metadata => 4,
        }
    }

    /// The caption shown above the field's input box.
    pub open spec fn spec_label(self) -> Seq<char> {
        match self {
            FormField::Name => "Name"@,
            FormField::Source => "Source"@,
            FormField::Summary => "Summary"@,
            FormField::Payload => "Payload (JSON)"@,
            FormField::Metadata => "Metadata (JSON)"@,
        }
    }

    pub fn label(&self) -> (r: &'static str)
        ensures
            r@ == self.spec_label(),
    {
        match self {
            FormField::Name => "Name",
            FormField::Source => "Source",
            FormField::Summary => "Summary",
            FormField::Payload => "Payload (JSON)",
            FormField::Metadata => "Metadata (JSON)",
        }
    }

    /// All fields, in the order in which the form shows them.
    pub fn all() -> (r: [FormField; 5])
        ensures
            r@ == seq![
                FormField::Name,
                FormField::Source,
                FormField::Summary,
                FormField::Payload,
                FormField::Metadata,
            ],
            forall|i: int| 0 <= i < 5 ==> (#[trigger] r@[i]).index() == i,
    {
        let r = [
            FormField::Name,
            FormField::Source,
            FormField::Summary,
            FormField::Payload,
            FormField::Metadata,
        ];
        assert(r@ =~= seq![
            FormField::Name,
            FormField::Source,
            FormField::Summary,
            FormField::Payload,
            FormField::Metadata,
        ]);
        r
    }
}


/// The text typed into each field of the create form, and which field takes
/// the next keystroke.
#[derive(Debug, Clone)]
pub struct CreateForm {
    pub name: String,
    pub source: String,
    pub summary: String,
    pub payload: String,
    pub metadata: String,
    pub active_field: usize,
}

/// What a `CreateForm` holds: the text of each field, and the active field.
pub struct FormView {
    pub name: Seq<char>,
    pub source: Seq<char>,
    pub summary: Seq<char>,
    pub payload: Seq<char>,
    pub metadata: Seq<char>,
    pub active_field: nat,
}

impl FormView {
    /// The form that `CreateForm::default` makes: every field empty, the
    /// first one active.
    pub open spec fn empty() -> FormView {
        FormView {
            name: Seq::empty(),
            source: Seq::empty(),
            summary: Seq::empty(),
            payload: Seq::empty(),
            metadata: Seq::empty(),
            active_field: 0,
        }
    }

    /// The text of the field at position `i` (0 to 4).
    pub open spec fn value(self, i: nat) -> Seq<char> {
        if i == 0 {
            self.name
        } else if i == 1 {
            self.source
        } else if i == 2 {
            self.summary
        } else if i == 3 {
            self.payload
        } else {
            self.metadata
        }
    }

    /// The same form with the text of the field at position `i` replaced.
    pub open spec fn with_value(self, i: nat, v: Seq<char>) -> FormView {
        if i == 0 {
            FormView { name: v, ..self }
        } else if i == 1 {
            FormView { source: v, ..self }
        } else if i == 2 {
            FormView { summary: v, ..self }
        } else if i == 3 {
            FormView { payload: v, ..self }
        } else {
            FormView { metadata: v, ..self }
        }
    }

    /// The same form with the field at position `i` active.
    pub open spec fn with_active(self, i: nat) -> FormView {
        FormView { active_field: i, ..self }
    }

    /// The field that takes keystrokes after Tab.
    pub open spec fn next_active(self) -> nat {
        ((self.active_field + 1) % 5) as nat
    }

    /// The field that takes keystrokes after Shift+Tab.
    pub open spec fn prev_active(self) -> nat {
        if self.active_field == 0 {
            4
        } else {
            (self.active_field - 1) as nat
        }
    }
}

/// Tab followed by Shift+Tab makes the same field active again.
pub proof fn law_tab_then_back_tab(f: FormView)
    requires
        f.active_field < 5,
    ensures
        f.with_active(f.next_active()).with_active(f.with_active(f.next_active()).prev_active()) == f,
{
}

/// Shift+Tab followed by Tab makes the same field active again.
pub proof fn law_back_tab_then_tab(f: FormView)
    requires
        f.active_field < 5,
    ensures
        f.with_active(f.prev_active()).with_active(f.with_active(f.prev_active()).next_active()) == f,
{
}

/// Five presses of Tab go round the form back to the same field.
pub proof fn law_five_tabs_go_round(f: FormView)
    requires
        f.active_field < 5,
    ensures
        ({
            let f1 = f.with_active(f.next_active());
            let f2 = f1.with_active(f1.next_active());
            let f3 = f2.with_active(f2.next_active());
            let f4 = f3.with_active(f3.next_active());
            f4.with_active(f4.next_active())
        }) == f,
{
}

/// Writing a field's text and reading it back gives that text, and leaves
/// the other fields as they were.
pub proof fn law_read_after_write(f: FormView, i: nat, j: nat, v: Seq<char>)
    requires
        i < 5,
        j < 5,
    ensures
        f.with_value(i, v).value(i) == v,
        i != j ==> f.with_value(i, v).value(j) == f.value(j),
        f.with_value(i, v).active_field == f.active_field,
{
}

impl View for CreateForm {
    type V = FormView;

    open spec fn view(&self) -> FormView {
        FormView {
            name: self.name@,
            source: self.source@,
            summary: self.summary@,
            payload: self.payload@,
            metadata: self.metadata@,
            active_field: self.active_field as nat,
        }
    }
}

impl Default for CreateForm {
    fn default() -> (r: CreateForm)
        ensures
            r@ == FormView::empty(),
    {
        CreateForm {
            name: String::new(),
            source: String::new(),
            summary: String::new(),
            payload: String::new(),
            metadata: String::new(),
            active_field: 0,
        }
    }
}

impl CreateForm {
    /// The string of the active field, to be edited in place.
    pub fn active_value_mut(&mut self) -> (r: &mut String)
        requires
            old(self).active_field < FIELD_COUNT,
        ensures
            r@ == old(self)@.value(old(self).active_field as nat),
            final(self)@ == old(self)@.with_value(old(self).active_field as nat, final(r)@),
    {
        match self.active_field {
            0 => &mut self.name,
            1 => &mut self.source,
            2 => &mut self.summary,
            3 => &mut self.payload,
            _ => &mut self.metadata,
        }
    }

    /// The text typed into `field`.
    pub fn value_for(&self, field: &FormField) -> (r: &str)
        ensures
            r@ == self@.value(field.index()),
    {
        match field {
            FormField::Name => self.name.as_str(),
            FormField::Source => self.source.as_str(),
            FormField::Summary => self.summary.as_str(),
            FormField::Payload => self.payload.as_str(),
            FormField::Metadata => self.metadata.as_str(),
        }
    }

    /// Makes the next field active, the first one after the last.
    pub fn next_field(&mut self)
        requires
            old(self).active_field < usize::MAX,
        ensures
            final(self)@ == old(self)@.with_active(old(self)@.next_active()),
    {
        self.active_field = (self.active_field + 1) % FIELD_COUNT;
    }

    /// Makes the previous field active, the last one before the first.
    pub fn prev_field(&mut self)
        ensures
            final(self)@ == old(self)@.with_active(old(self)@.prev_active()),
    {
        self.active_field = match self.active_field.checked_sub(1) {
            Some(i) => i,
            None => 4,
        };
    }

    /// Empties every field and makes the first one active.
    pub fn clear(&mut self)
        ensures
            final(self)@ == FormView::empty(),
    {
        *self = CreateForm::default();
    }
}

} // verus!

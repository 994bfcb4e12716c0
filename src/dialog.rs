use vstd::prelude::*;
use vstd::string::StringExecFns;

verus! {

/// Severity of a modal dialog.
#[derive(Debug, Clone, Copy, PartialEq, Eq, Structural)]
pub enum DialogType {
    Debug,
    Info,
    Warn,
    Error,
}

/// The title shown for a dialog of the given severity.
pub open spec fn dialog_title(t: DialogType) -> Seq<char> {
    match t {
        DialogType::Debug => seq!['D', 'E', 'B', 'U', 'G'],
        DialogType::Info => seq!['I', 'N', 'F', 'O'],
        DialogType::Warn => seq!['W', 'A', 'R', 'N'],
        DialogType::Error => seq!['E', 'R', 'R', 'O', 'R'],
    }
}

impl DialogType {
    /// The upper-case name of the severity, used as the dialog's title.
    pub fn as_str(&self) -> (r: &'static str)
        ensures
            r@ == dialog_title(*self),
    {
        proof {
            reveal_strlit("DEBUG");
            reveal_strlit("INFO");
            reveal_strlit("WARN");
            reveal_strlit("ERROR");
        }
        match self {
            DialogType::Debug => "DEBUG",
            DialogType::Info => "INFO",
            DialogType::Warn => "WARN",
            DialogType::Error => "ERROR",
        }
    }
}

/// The icon shown beside a dialog's message.
#[derive(Debug, Clone, Copy, PartialEq, Eq, Structural)]
pub enum DialogIcon {
    Information,
    Warning,
    Error,
}

/// Which icon a dialog of the given severity shows.
pub open spec fn icon_for(t: DialogType) -> DialogIcon {
    match t {
        DialogType::Debug | DialogType::Info => DialogIcon::Information,
        DialogType::Warn => DialogIcon::Warning,
        DialogType::Error => DialogIcon::Error,
    }
}

impl DialogType {
    /// The icon shown beside a dialog of this severity.
    pub fn icon(&self) -> (r: DialogIcon)
        ensures
            r == icon_for(*self),
    {
        match self {
            DialogType::Debug => DialogIcon::Information,
            DialogType::Info => DialogIcon::Information,
            DialogType::Warn => DialogIcon::Warning,
            DialogType::Error => DialogIcon::Error,
        }
    }
}

/// Text reported when a dialog is requested while another one is open.
pub open spec fn rejection_text(t: DialogType, message: Seq<char>) -> Seq<char> {
    "A modal window is already active. The offending request was: ["@ + dialog_title(t) + "] "@
        + message
}

/// Builds the notice for a dialog request that was turned away.
pub fn rejection_notice(t: DialogType, message: &str) -> (r: String)
    ensures
        r@ == rejection_text(t, message@),
{
    let mut s = String::new();
    s.append("A modal window is already active. The offending request was: [");
    s.append(t.as_str());
    s.append("] ");
    s.append(message);
    s
}

/// The single modal dialog of the interface: at most one is open at a time.
pub struct ModalDialog {
    active: bool,
    kind: DialogType,
    message: String,
}

impl ModalDialog {
    pub closed spec fn spec_active(&self) -> bool {
        self.active
    }

    pub closed spec fn spec_kind(&self) -> DialogType {
        self.kind
    }

    pub closed spec fn spec_message(&self) -> Seq<char> {
        self.message@
    }

    /// No dialog open; the stored request is an empty debug message.
    pub fn new() -> (r: ModalDialog)
        ensures
            !r.spec_active(),
            r.spec_kind() == DialogType::Debug,
            r.spec_message() == Seq::<char>::empty(),
    {
        ModalDialog { active: false, kind: DialogType::Debug, message: String::new() }
    }

    /// Asks for a dialog. When none is open, it opens with the given severity and message
    /// and `None` is returned. When one is already open, nothing changes and the notice
    /// that reports the turned-away request is returned.
    pub fn request(&mut self, kind: DialogType, message: &str) -> (notice: Option<String>)
        ensures
            old(self).spec_active() ==> {
                &&& notice is Some
                &&& notice->0@ == rejection_text(kind, message@)
                &&& final(self).spec_active() == old(self).spec_active()
                &&& final(self).spec_kind() == old(self).spec_kind()
                &&& final(self).spec_message() == old(self).spec_message()
            },
            !old(self).spec_active() ==> {
                &&& notice is None
                &&& final(self).spec_active()
                &&& final(self).spec_kind() == kind
                &&& final(self).spec_message() == message@
            },
    {
        if self.active {
            Some(rejection_notice(kind, message))
        } else {
            self.active = true;
            self.kind = kind;
            self.message = message.to_owned();
            None
        }
    }

    /// Marks the dialog as shown; the stored request is kept.
    pub fn show(&mut self)
        ensures
            final(self).spec_active(),
            final(self).spec_kind() == old(self).spec_kind(),
            final(self).spec_message() == old(self).spec_message(),
    {
        self.active = true;
    }

    /// Closes the dialog; the stored request is kept.
    pub fn close(&mut self)
        ensures
            !final(self).spec_active(),
            final(self).spec_kind() == old(self).spec_kind(),
            final(self).spec_message() == old(self).spec_message(),
    {
        self.active = false;
    }

    /// Whether a dialog is open.
    pub fn is_active(&self) -> (r: bool)
        ensures
            r == self.spec_active(),
    {
        self.active
    }

    /// Severity of the stored request.
    pub fn kind(&self) -> (r: DialogType)
        ensures
            r == self.spec_kind(),
    {
        self.kind
    }

    /// Message of the stored request.
    pub fn message(&self) -> (r: &str)
        ensures
            r@ == self.spec_message(),
    {
        self.message.as_str()
    }
}

} // verus!

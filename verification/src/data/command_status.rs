//! Command lifecycle status and the canonical full-name construction.

use vstd::prelude::*;
use crate::debug_text::{ to_lowercase, lowercase_text };
use crate::text::{ chars_eq_str, chars_of, owned, push_str, push_char, push_chars, subvec, eq_ignore_ascii_case, eq_ignore_ascii_case_str };

verus! {

broadcast use vstd::string::group_string_axioms;

/// Lifecycle stage of a command.
#[derive(Debug)]
pub enum CommandStatus {
    /// Stable and available.
    Active,
    /// Scheduled for removal.
    Deprecated {
        /// Reason and migration guidance.
        reason: String,
        /// Version in which the deprecation started.
        since: Option<String>,
        /// Suggested replacement command.
        replacement: Option<String>,
    },
    /// Unstable API.
    Experimental,
    /// For internal use only.
    Internal,
}

/// The mathematical value of a status, its texts taken as character sequences.
pub enum StatusView {
    Active,
    Deprecated { reason: Seq<char>, since: Option<Seq<char>>, replacement: Option<Seq<char>> },
    Experimental,
    Internal,
}

impl View for CommandStatus {
    type V = StatusView;

    open spec fn view(&self) -> StatusView {
        match self {
            CommandStatus::Active => StatusView::Active,
            CommandStatus::Deprecated { reason, since, replacement } => StatusView::Deprecated {
                reason: reason@,
                since: opt_view(*since),
                replacement: opt_view(*replacement),
            },
            CommandStatus::Experimental => StatusView::Experimental,
            CommandStatus::Internal => StatusView::Internal,
        }
    }
}

impl Clone for CommandStatus {
    fn clone(&self) -> (r: Self)
        ensures
            r == *self,
    {
        match self {
            CommandStatus::Active => CommandStatus::Active,
            CommandStatus::Experimental => CommandStatus::Experimental,
            CommandStatus::Internal => CommandStatus::Internal,
            CommandStatus::Deprecated { reason, since, replacement } => CommandStatus::Deprecated {
                reason: reason.clone(),
                since: clone_opt_string(since),
                replacement: clone_opt_string(replacement),
            },
        }
    }
}

/// A copy of an optional string.
pub fn clone_opt_string(o: &Option<String>) -> (r: Option<String>)
    ensures
        r == *o,
{
    match o {
        Some(s) => Some(s.clone()),
        None => None,
    }
}

/// The status that a status word names: `experimental` and `internal`
/// (ignoring case), everything else is `Active`.
pub open spec fn status_from_word(s: Seq<char>) -> CommandStatus {
    if eq_ignore_ascii_case(s, "experimental"@) {
        CommandStatus::Experimental
    } else if eq_ignore_ascii_case(s, "internal"@) {
        CommandStatus::Internal
    } else {
        CommandStatus::Active
    }
}

/// Option of a `String` seen as an option of its characters.
pub open spec fn opt_view(o: Option<String>) -> Option<Seq<char>> {
    match o {
        Some(s) => Some(s@),
        None => None,
    }
}

/// The text that a status displays as.
pub open spec fn status_text(st: StatusView) -> Seq<char> {
    match st {
        StatusView::Active => "active"@,
        StatusView::Deprecated { reason, since, replacement } => {
            "deprecated"@ + (match since {
                Some(s) => " (since "@ + s + ")"@,
                None => Seq::<char>::empty(),
            }) + (if reason.len() > 0 {
                ": "@ + reason
            } else {
                Seq::<char>::empty()
            }) + (match replacement {
                Some(r) => " \u{2192} "@ + r,
                None => Seq::<char>::empty(),
            })
        },
        StatusView::Experimental => "experimental"@,
        StatusView::Internal => "internal"@,
    }
}

/// The status that a lower-cased status word names.
pub open spec fn status_of_lower_word(w: Seq<char>) -> StatusView {
    if w == "active"@ || w == "stable"@ {
        StatusView::Active
    } else if w == "experimental"@ {
        StatusView::Experimental
    } else if w == "internal"@ {
        StatusView::Internal
    } else if w == "deprecated"@ {
        StatusView::Deprecated { reason: Seq::<char>::empty(), since: None, replacement: None }
    } else {
        StatusView::Active
    }
}

/// The status that a status record names.
pub open spec fn status_of_record(
    status: Option<Seq<char>>,
    reason: Option<Seq<char>>,
    since: Option<Seq<char>>,
    replacement: Option<Seq<char>>,
) -> StatusView {
    if status == Some("deprecated"@) {
        StatusView::Deprecated {
            reason: match reason {
                Some(t) => t,
                None => Seq::<char>::empty(),
            },
            since: since,
            replacement: replacement,
        }
    } else if status == Some("experimental"@) {
        StatusView::Experimental
    } else if status == Some("internal"@) {
        StatusView::Internal
    } else {
        StatusView::Active
    }
}

/// A status in the shape documents store it: a single word, or a record
/// of `status`, `reason`, `since` and `replacement`, each of which a
/// document may leave out (and `since` and `replacement` may be null).
#[derive(Debug, Clone)]
pub enum StatusForm {
    Word(String),
    Record {
        status: Option<String>,
        reason: Option<String>,
        since: Option<Option<String>>,
        replacement: Option<Option<String>>,
    },
}

/// The value of a stored status: a missing and a null `since` or
/// `replacement` read alike.
pub enum StatusFormView {
    Word(Seq<char>),
    Record {
        status: Option<Seq<char>>,
        reason: Option<Seq<char>>,
        since: Option<Seq<char>>,
        replacement: Option<Seq<char>>,
    },
}

/// An optional, possibly null, text: absent when missing or null.
pub open spec fn opt_opt_view(o: Option<Option<String>>) -> Option<Seq<char>> {
    match o {
        Some(i) => opt_view(i),
        None => None,
    }
}

impl View for StatusForm {
    type V = StatusFormView;

    open spec fn view(&self) -> StatusFormView {
        match self {
            StatusForm::Word(w) => StatusFormView::Word(w@),
            StatusForm::Record { status, reason, since, replacement } => StatusFormView::Record {
                status: opt_view(*status),
                reason: opt_view(*reason),
                since: opt_opt_view(*since),
                replacement: opt_opt_view(*replacement),
            },
        }
    }
}

/// The shape in which documents store a status: `active`, `experimental`
/// and `internal` as their word; a deprecation as a record with the status
/// `deprecated` and its reason, version and replacement.
pub open spec fn status_form(st: StatusView) -> StatusFormView {
    match st {
        StatusView::Active => StatusFormView::Word("active"@),
        StatusView::Experimental => StatusFormView::Word("experimental"@),
        StatusView::Internal => StatusFormView::Word("internal"@),
        StatusView::Deprecated { reason, since, replacement } => StatusFormView::Record {
            status: Some("deprecated"@),
            reason: Some(reason),
            since: since,
            replacement: replacement,
        },
    }
}

/// The status that a stored shape reads as: a word compared in its Unicode
/// lower-case form (`status_of_lower_word`), a record by `status_of_record`.
pub open spec fn status_of_form(f: StatusFormView) -> StatusView {
    match f {
        StatusFormView::Word(w) => status_of_lower_word(lowercase_text(w)),
        StatusFormView::Record { status, reason, since, replacement } => status_of_record(status, reason, since, replacement),
    }
}

/// Every status reads back from the shape it is stored in as itself.
pub proof fn lemma_status_form_roundtrip(st: StatusView)
    ensures
        status_of_form(status_form(st)) == st,
{
    reveal_strlit("active");
    reveal_strlit("stable");
    reveal_strlit("experimental");
    reveal_strlit("internal");
    reveal_strlit("deprecated");
    match st {
        StatusView::Active => {
            assert("active"@.map_values(|c: char| crate::text::ascii_lower(c)) =~= "active"@);
        },
        StatusView::Experimental => {
            assert("experimental"@.map_values(|c: char| crate::text::ascii_lower(c)) =~= "experimental"@);
        },
        StatusView::Internal => {
            assert("internal"@.map_values(|c: char| crate::text::ascii_lower(c)) =~= "internal"@);
        },
        StatusView::Deprecated { .. } => {},
    }
}

impl CommandStatus {
    /// Whether the command is active.
    pub fn is_active(&self) -> (r: bool)
        ensures
            r == (self is Active),
    {
        match self {
            CommandStatus::Active => true,
            _ => false,
        }
    }

    /// Whether the command is deprecated.
    pub fn is_deprecated(&self) -> (r: bool)
        ensures
            r == (self is Deprecated),
    {
        match self {
            CommandStatus::Deprecated { .. } => true,
            _ => false,
        }
    }

    /// Whether the command is experimental.
    pub fn is_experimental(&self) -> (r: bool)
        ensures
            r == (self is Experimental),
    {
        match self {
            CommandStatus::Experimental => true,
            _ => false,
        }
    }

    /// Whether the command is internal.
    pub fn is_internal(&self) -> (r: bool)
        ensures
            r == (self is Internal),
    {
        match self {
            CommandStatus::Internal => true,
            _ => false,
        }
    }

    /// Reads a status word, defaulting to `Active` for unknown words.
    ///
    /// Words are compared ignoring ASCII case; for the two recognised words
    /// this agrees with comparing their Unicode lower-case forms, since no
    /// other character lower-cases to a letter of `experimental` or `internal`.
    pub fn from_str_lossy(s: &str) -> (r: Self)
        ensures
            r == status_from_word(s@),
    {
        let v = chars_of(s);
        if eq_ignore_ascii_case_str(&v, "experimental") {
            CommandStatus::Experimental
        } else if eq_ignore_ascii_case_str(&v, "internal") {
            CommandStatus::Internal
        } else {
            CommandStatus::Active
        }
    }

    /// Reads a status written as a single word, compared in its Unicode
    /// lower-case form: `active` and `stable` are `Active`, `experimental`
    /// and `internal` name theirs, `deprecated` is a deprecation without
    /// metadata, and any other word is `Active`.
    pub fn from_status_word(word: &str) -> (r: Self)
        ensures
            r@ == status_of_lower_word(lowercase_text(word@)),
    {
        let lower = to_lowercase(word);
        let v = chars_of(lower.as_str());
        if chars_eq_str(&v, "active") || chars_eq_str(&v, "stable") {
            CommandStatus::Active
        } else if chars_eq_str(&v, "experimental") {
            CommandStatus::Experimental
        } else if chars_eq_str(&v, "internal") {
            CommandStatus::Internal
        } else if chars_eq_str(&v, "deprecated") {
            CommandStatus::Deprecated { reason: String::new(), since: None, replacement: None }
        } else {
            CommandStatus::Active
        }
    }

    /// Reads a status written as a record of `status`, `reason`, `since`
    /// and `replacement`: the status word is matched exactly, a deprecation
    /// takes the reason (empty when absent) and the version and replacement
    /// when present and not null; any other word, or none, is `Active`.
    pub fn from_status_fields(
        status: Option<&str>,
        reason: Option<String>,
        since: Option<Option<String>>,
        replacement: Option<Option<String>>,
    ) -> (r: Self)
        ensures
            r@ == status_of_record(
                match status { Some(s) => Some(s@), None => None },
                opt_view(reason),
                match since { Some(o) => opt_view(o), None => None },
                match replacement { Some(o) => opt_view(o), None => None },
            ),
    {
        let word = match status {
            Some(s) => chars_of(s),
            None => {
                return CommandStatus::Active;
            },
        };
        if chars_eq_str(&word, "deprecated") {
            CommandStatus::Deprecated {
                reason: match reason {
                    Some(t) => t,
                    None => String::new(),
                },
                since: match since {
                    Some(o) => o,
                    None => None,
                },
                replacement: match replacement {
                    Some(o) => o,
                    None => None,
                },
            }
        } else if chars_eq_str(&word, "experimental") {
            CommandStatus::Experimental
        } else if chars_eq_str(&word, "internal") {
            CommandStatus::Internal
        } else {
            CommandStatus::Active
        }
    }

    /// The shape in which documents store this status; see `status_form`.
    pub fn to_form(&self) -> (r: StatusForm)
        ensures
            r@ == status_form(self@),
    {
        match self {
            CommandStatus::Active => StatusForm::Word(owned("active")),
            CommandStatus::Experimental => StatusForm::Word(owned("experimental")),
            CommandStatus::Internal => StatusForm::Word(owned("internal")),
            CommandStatus::Deprecated { reason, since, replacement } => StatusForm::Record {
                status: Some(owned("deprecated")),
                reason: Some(reason.clone()),
                since: Some(since.clone()),
                replacement: Some(replacement.clone()),
            },
        }
    }

    /// Reads a status from the shape documents store it in: a word as
    /// `from_status_word` reads it, a record as `from_status_fields` does;
    /// see `status_of_form`.
    pub fn from_form(form: StatusForm) -> (r: Self)
        ensures
            r@ == status_of_form(form@),
    {
        match form {
            StatusForm::Word(w) => CommandStatus::from_status_word(w.as_str()),
            StatusForm::Record { status, reason, since, replacement } => {
                match status {
                    Some(s) => CommandStatus::from_status_fields(Some(s.as_str()), reason, since, replacement),
                    None => CommandStatus::from_status_fields(None, reason, since, replacement),
                }
            },
        }
    }

    /// The deprecation metadata `(reason, since, replacement)`, when deprecated.
    pub fn deprecation_info(&self) -> (r: Option<(&str, &Option<String>, &Option<String>)>)
        ensures
            r is Some <==> self is Deprecated,
            r matches Some(t) ==> self matches CommandStatus::Deprecated { reason, since, replacement }
                && t.0@ == reason@ && *t.1 == since && *t.2 == replacement,
    {
        match self {
            CommandStatus::Deprecated { reason, since, replacement } => Some((reason.as_str(), since, replacement)),
            _ => None,
        }
    }

    /// The text that this status displays as: `active`, `experimental`,
    /// `internal`, or `deprecated` followed by its metadata.
    pub fn to_display_string(&self) -> (r: String)
        ensures
            r@ == status_text(self@),
    {
        match self {
            CommandStatus::Active => owned("active"),
            CommandStatus::Experimental => owned("experimental"),
            CommandStatus::Internal => owned("internal"),
            CommandStatus::Deprecated { reason, since, replacement } => {
                let mut out = owned("deprecated");
                let ghost a = out@;
                match since {
                    Some(s) => {
                        push_str(&mut out, " (since ");
                        push_str(&mut out, s.as_str());
                        push_str(&mut out, ")");
                    },
                    None => {},
                }
                let rv = chars_of(reason.as_str());
                if rv.len() > 0 {
                    push_str(&mut out, ": ");
                    push_str(&mut out, reason.as_str());
                }
                match replacement {
                    Some(x) => {
                        push_str(&mut out, " \u{2192} ");
                        push_str(&mut out, x.as_str());
                    },
                    None => {},
                }
                proof {
                    let since_part = match since {
                        Some(s) => " (since "@ + s@ + ")"@,
                        None => Seq::<char>::empty(),
                    };
                    let reason_part = if reason@.len() > 0 { ": "@ + reason@ } else { Seq::<char>::empty() };
                    let repl_part = match replacement {
                        Some(x) => " \u{2192} "@ + x@,
                        None => Seq::<char>::empty(),
                    };
                    assert(out@ =~= "deprecated"@ + since_part + reason_part + repl_part);
                }
                out
            },
        }
    }
}

/// The fully qualified command name built from a namespace and a name.
///
/// An empty namespace leaves a dotted name as it is and dots a bare one; a
/// non-empty namespace (dotted if needed) is always joined to the name,
/// without its own leading dot, with a single dot.
pub open spec fn full_command_name(namespace: Seq<char>, name: Seq<char>) -> Seq<char> {
    if name.len() > 0 && name[0] == '.' {
        if namespace.len() == 0 {
            name
        } else if namespace[0] == '.' {
            namespace + seq!['.'] + name.drop_first()
        } else {
            seq!['.'] + namespace + seq!['.'] + name.drop_first()
        }
    } else if namespace.len() == 0 {
        seq!['.'] + name
    } else if namespace[0] == '.' {
        namespace + seq!['.'] + name
    } else {
        seq!['.'] + namespace + seq!['.'] + name
    }
}

/// Every full command name starts with the dot prefix.
pub proof fn lemma_full_name_dotted(namespace: Seq<char>, name: Seq<char>)
    ensures
        full_command_name(namespace, name).len() > 0,
        full_command_name(namespace, name)[0] == '.',
{
}

/// Builds the fully qualified command name from a namespace and a name.
pub fn construct_full_command_name(namespace: &str, name: &str) -> (r: String)
    ensures
        r@ == full_command_name(namespace@, name@),
{
    let ns = chars_of(namespace);
    let nm = chars_of(name);
    if nm.len() > 0 && nm[0] == '.' {
        if ns.len() == 0 {
            owned(name)
        } else {
            let rest = subvec(&nm, 1, nm.len());
            let mut out = String::new();
            if ns[0] != '.' {
                push_char(&mut out, '.');
            }
            push_str(&mut out, namespace);
            push_char(&mut out, '.');
            push_chars(&mut out, &rest);
            proof {
                assert(rest@ =~= nm@.drop_first());
                if ns@[0] == '.' {
                    assert(out@ =~= namespace@ + seq!['.'] + name@.drop_first());
                } else {
                    assert(out@ =~= seq!['.'] + namespace@ + seq!['.'] + name@.drop_first());
                }
            }
            out
        }
    } else {
        let mut out = String::new();
        if ns.len() == 0 {
            push_char(&mut out, '.');
            push_str(&mut out, name);
            assert(out@ =~= seq!['.'] + name@);
        } else {
            if ns[0] != '.' {
                push_char(&mut out, '.');
            }
            push_str(&mut out, namespace);
            push_char(&mut out, '.');
            push_str(&mut out, name);
            proof {
                if ns@[0] == '.' {
                    assert(out@ =~= namespace@ + seq!['.'] + name@);
                } else {
                    assert(out@ =~= seq!['.'] + namespace@ + seq!['.'] + name@);
                }
            }
        }
        out
    }
}

} // verus!

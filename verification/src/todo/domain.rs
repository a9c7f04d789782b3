use vstd::prelude::*;
use time::OffsetDateTime;

use super::error::TodoError;
use super::external::{is_random_uuid, new_v4_bits, now_utc};
use super::text::{
    is_blank, is_white_space, lemma_trim_empty_iff_blank, is_trimmed, lemma_trim_idempotent, lemma_trim_is_trimmed, lemma_trim_keeps_trimmed, trim,
    trim_with_len,
};

verus! {

/// The most characters a title may have once trimmed.
pub const MAX_TITLE_CHARS: usize = 100;

/// What validating a raw title gives: the trimmed title, or why it is refused.
pub open spec fn title_check(raw: Seq<char>) -> Result<Seq<char>, TodoError> {
    let t = trim(raw);
    if t.len() == 0 {
        Err(TodoError::InvalidTitle)
    } else if t.len() > MAX_TITLE_CHARS {
        Err(TodoError::TitleTooLong)
    } else {
        Ok(t)
    }
}

/// A title that validation accepts as it stands: trimmed, not empty, at most
/// `MAX_TITLE_CHARS` characters.
pub open spec fn is_valid_title(t: Seq<char>) -> bool {
    &&& 0 < t.len() <= MAX_TITLE_CHARS
    &&& is_trimmed(t)
}

/// What normalising a raw description gives: the trimmed text, or `None` where
/// there is no text or nothing but white space.
pub open spec fn description_norm(raw: Option<Seq<char>>) -> Option<Seq<char>> {
    match raw {
        Some(s) => if trim(s).len() > 0 {
            Some(trim(s))
        } else {
            None
        },
        None => None,
    }
}

/// A description that normalisation leaves as it stands.
pub open spec fn is_valid_description(d: Option<Seq<char>>) -> bool {
    match d {
        Some(s) => s.len() > 0 && is_trimmed(s),
        None => true,
    }
}

/// The view of an optional `String`.
pub open spec fn opt_string_view(o: Option<String>) -> Option<Seq<char>> {
    match o {
        Some(s) => Some(s@),
        None => None,
    }
}

/// The identity of a to-do: a UUID, held as its big-endian 128-bit value.
#[derive(Debug, Clone, Copy, PartialEq, Eq, Hash, Structural)]
pub struct TodoId(u128);

impl View for TodoId {
    type V = u128;

    closed spec fn view(&self) -> u128 {
        self.0
    }
}

impl TodoId {
    /// A fresh random (version 4) identity.
    pub fn new() -> (id: TodoId)
        ensures
            is_random_uuid(id@),
    {
        TodoId(new_v4_bits())
    }

    /// The identity whose UUID has the given 128-bit value.
    pub fn from_uuid(value: u128) -> (id: TodoId)
        ensures
            id@ == value,
    {
        TodoId(value)
    }

    /// The 128-bit value of this identity's UUID.
    pub fn as_uuid(&self) -> (value: u128)
        ensures
            value == self@,
    {
        self.0
    }
}

impl Default for TodoId {
    /// A fresh random identity, as `TodoId::new`.
    fn default() -> (id: TodoId)
        ensures
            is_random_uuid(id@),
    {
        TodoId::new()
    }
}

/// A validated title: trimmed, not empty, at most `MAX_TITLE_CHARS` characters.
#[derive(Debug, PartialEq, Eq)]
pub struct TodoTitle(String);

impl TodoTitle {
    #[verifier::type_invariant]
    spec fn inv(self) -> bool {
        is_valid_title(self.0@)
    }
}

impl View for TodoTitle {
    type V = Seq<char>;

    closed spec fn view(&self) -> Seq<char> {
        self.0@
    }
}

impl TodoTitle {
    /// Trims `value` and accepts it where something is left and it has at most
    /// `MAX_TITLE_CHARS` characters: `InvalidTitle` when nothing is left,
    /// `TitleTooLong` when more is.
    pub fn new(value: String) -> (r: Result<TodoTitle, TodoError>)
        ensures
            match title_check(value@) {
                Ok(t) => r matches Ok(title) && title@ == t,
                Err(e) => r matches Err(e2) && e2 == e,
            },
    {
        let ghost raw = value@;
        let (value, len) = trim_with_len(value.as_str());
        if len == 0 {
            return Err(TodoError::InvalidTitle);
        }
        if len > MAX_TITLE_CHARS {
            return Err(TodoError::TitleTooLong);
        }
        proof {
            lemma_trim_is_trimmed(raw);
        }
        Ok(TodoTitle(value))
    }

    /// The title's text, which is always a valid title.
    pub fn as_str(&self) -> (s: &str)
        ensures
            s@ == self@,
            is_valid_title(self@),
    {
        proof {
            use_type_invariant(self);
        }
        self.0.as_str()
    }
}

impl Clone for TodoTitle {
    fn clone(&self) -> (r: Self)
        ensures
            r@ == self@,
    {
        proof {
            use_type_invariant(self);
        }
        TodoTitle(self.0.clone())
    }
}

/// A normalised description: either absent, or a trimmed text that is not empty.
#[derive(Debug, PartialEq, Eq)]
pub struct TodoDescription(Option<String>);

impl TodoDescription {
    #[verifier::type_invariant]
    spec fn inv(self) -> bool {
        is_valid_description(opt_string_view(self.0))
    }
}

impl View for TodoDescription {
    type V = Option<Seq<char>>;

    closed spec fn view(&self) -> Option<Seq<char>> {
        opt_string_view(self.0)
    }
}

impl TodoDescription {
    /// Trims the text, and keeps no description where there is none or where
    /// nothing but white space was given.
    pub fn new(value: Option<String>) -> (d: TodoDescription)
        ensures
            d@ == description_norm(opt_string_view(value)),
            value matches Some(s) ==> (!is_blank(s@) ==> d@ == Some(trim(s@))),
            value matches Some(s) ==> (is_blank(s@) ==> d@ is None),
            value is None ==> d@ is None,
    {
        match value {
            Some(text) => {
                let ghost raw = text@;
                let (text, len) = trim_with_len(text.as_str());
                proof {
                    lemma_trim_is_trimmed(raw);
                    lemma_trim_empty_iff_blank(raw);
                }
                if len == 0 {
                    TodoDescription(None)
                } else {
                    TodoDescription(Some(text))
                }
            },
            None => TodoDescription(None),
        }
    }

    /// The description's text, if there is one; it is always a valid description.
    pub fn as_deref(&self) -> (r: Option<&str>)
        ensures
            self@ == match r {
                Some(s) => Some(s@),
                None => None::<Seq<char>>,
            },
            is_valid_description(self@),
    {
        proof {
            use_type_invariant(self);
        }
        match &self.0 {
            Some(text) => Some(text.as_str()),
            None => None,
        }
    }
}

impl Clone for TodoDescription {
    fn clone(&self) -> (r: Self)
        ensures
            r@ == self@,
    {
        proof {
            use_type_invariant(self);
        }
        match &self.0 {
            Some(text) => TodoDescription(Some(text.clone())),
            None => TodoDescription(None),
        }
    }
}

/// The abstract value of a to-do.
pub struct TodoView {
    pub id: u128,
    pub title: Seq<char>,
    pub description: Option<Seq<char>>,
    pub completed: bool,
    pub created_at: OffsetDateTime,
    pub updated_at: OffsetDateTime,
}

/// The to-do `v` after an edit: the title replaced where one is given, the
/// description replaced where one is given, stamped `now`.
pub open spec fn edited(
    v: TodoView,
    title: Option<Seq<char>>,
    description: Option<Option<Seq<char>>>,
    now: OffsetDateTime,
) -> TodoView {
    TodoView {
        title: match title {
            Some(t) => t,
            None => v.title,
        },
        description: match description {
            Some(d) => d,
            None => v.description,
        },
        updated_at: now,
        ..v
    }
}

/// Completing the to-do `v` at `now`: refused when it is already completed.
pub open spec fn completion(v: TodoView, now: OffsetDateTime) -> Result<TodoView, TodoError> {
    if v.completed {
        Err(TodoError::AlreadyCompleted)
    } else {
        Ok(TodoView { completed: true, updated_at: now, ..v })
    }
}

/// Reopening the to-do `v` at `now`: refused when it is already open.
pub open spec fn reopening(v: TodoView, now: OffsetDateTime) -> Result<TodoView, TodoError> {
    if !v.completed {
        Err(TodoError::AlreadyOpen)
    } else {
        Ok(TodoView { completed: false, updated_at: now, ..v })
    }
}

/// A to-do is well formed when its title and description are valid.
pub open spec fn is_valid_todo(v: TodoView) -> bool {
    is_valid_title(v.title) && is_valid_description(v.description)
}

/// The view of an optional title.
pub open spec fn opt_title_view(t: Option<TodoTitle>) -> Option<Seq<char>> {
    match t {
        Some(t) => Some(t@),
        None => None,
    }
}

/// The view of an optional description.
pub open spec fn opt_description_view(d: Option<TodoDescription>) -> Option<Option<Seq<char>>> {
    match d {
        Some(d) => Some(d@),
        None => None,
    }
}

/// A to-do: an identity, a title, an optional description, whether it is completed,
/// and when it was created and last changed.
#[derive(Debug, PartialEq, Eq)]
pub struct Todo {
    id: TodoId,
    title: TodoTitle,
    description: TodoDescription,
    completed: bool,
    created_at: OffsetDateTime,
    updated_at: OffsetDateTime,
}

impl View for Todo {
    type V = TodoView;

    closed spec fn view(&self) -> TodoView {
        TodoView {
            id: self.id@,
            title: self.title@,
            description: self.description@,
            completed: self.completed,
            created_at: self.created_at,
            updated_at: self.updated_at,
        }
    }
}

impl Todo {
    /// A new open to-do with a fresh random identity, created and last changed now.
    pub fn new(title: TodoTitle, description: TodoDescription) -> (t: Todo)
        ensures
            is_random_uuid(t@.id),
            t@.title == title@,
            t@.description == description@,
            !t@.completed,
            t@.created_at == t@.updated_at,
    {
        let now = now_utc();
        Todo {
            id: TodoId::new(),
            title,
            description,
            completed: false,
            created_at: now,
            updated_at: now,
        }
    }

    /// A to-do rebuilt from stored values, as they are.
    pub fn restore(
        id: TodoId,
        title: TodoTitle,
        description: TodoDescription,
        completed: bool,
        created_at: OffsetDateTime,
        updated_at: OffsetDateTime,
    ) -> (t: Todo)
        ensures
            t@ == (TodoView {
                id: id@,
                title: title@,
                description: description@,
                completed,
                created_at,
                updated_at,
            }),
    {
        Todo { id, title, description, completed, created_at, updated_at }
    }

    /// Replaces the title and the description where new ones are given, and
    /// stamps the to-do as changed now.
    pub fn update(&mut self, title: Option<TodoTitle>, description: Option<TodoDescription>)
        ensures
            final(self)@ == edited(
                old(self)@,
                opt_title_view(title),
                opt_description_view(description),
                final(self)@.updated_at,
            ),
    {
        if let Some(title) = title {
            self.title = title;
        }
        if let Some(description) = description {
            self.description = description;
        }
        self.touch();
    }

    /// Marks an open to-do completed and stamps it; a completed one is refused
    /// with `AlreadyCompleted` and left as it is.
    pub fn complete(&mut self) -> (r: Result<(), TodoError>)
        ensures
            match completion(old(self)@, final(self)@.updated_at) {
                Ok(v) => r is Ok && final(self)@ == v,
                Err(e) => r == Err::<(), TodoError>(e) && final(self)@ == old(self)@,
            },
    {
        if self.completed {
            return Err(TodoError::AlreadyCompleted);
        }
        self.completed = true;
        self.touch();
        Ok(())
    }

    /// Marks a completed to-do open again and stamps it; an open one is refused
    /// with `AlreadyOpen` and left as it is.
    pub fn reopen(&mut self) -> (r: Result<(), TodoError>)
        ensures
            match reopening(old(self)@, final(self)@.updated_at) {
                Ok(v) => r is Ok && final(self)@ == v,
                Err(e) => r == Err::<(), TodoError>(e) && final(self)@ == old(self)@,
            },
    {
        if !self.completed {
            return Err(TodoError::AlreadyOpen);
        }
        self.completed = false;
        self.touch();
        Ok(())
    }

    /// Stamps the to-do as changed now.
    fn touch(&mut self)
        ensures
            final(self)@ == (TodoView { updated_at: final(self)@.updated_at, ..old(self)@ }),
    {
        self.updated_at = now_utc();
    }

    pub fn id(&self) -> (id: TodoId)
        ensures
            id@ == self@.id,
    {
        self.id
    }

    pub fn title(&self) -> (t: &TodoTitle)
        ensures
            t@ == self@.title,
    {
        &self.title
    }

    pub fn description(&self) -> (d: &TodoDescription)
        ensures
            d@ == self@.description,
    {
        &self.description
    }

    pub fn completed(&self) -> (c: bool)
        ensures
            c == self@.completed,
    {
        self.completed
    }

    pub fn created_at(&self) -> (at: OffsetDateTime)
        ensures
            at == self@.created_at,
    {
        self.created_at
    }

    pub fn updated_at(&self) -> (at: OffsetDateTime)
        ensures
            at == self@.updated_at,
    {
        self.updated_at
    }
}

impl Clone for Todo {
    fn clone(&self) -> (r: Self)
        ensures
            r@ == self@,
    {
        Todo {
            id: self.id,
            title: self.title.clone(),
            description: self.description.clone(),
            completed: self.completed,
            created_at: self.created_at,
            updated_at: self.updated_at,
        }
    }
}

/// A title that validation accepted is valid, and validating it again accepts it
/// unchanged.
pub proof fn law_title_check_idempotent(raw: Seq<char>)
    ensures
        title_check(raw) matches Ok(t) ==> is_valid_title(t) && title_check(t) == Ok::<
            Seq<char>,
            TodoError,
        >(t),
{
    lemma_trim_is_trimmed(raw);
    lemma_trim_idempotent(raw);
}

/// Validation accepts exactly the titles that are valid once trimmed.
pub proof fn law_title_check_accepts_valid(raw: Seq<char>)
    ensures
        title_check(raw) is Ok <==> is_valid_title(trim(raw)),
        is_valid_title(raw) ==> title_check(raw) == Ok::<Seq<char>, TodoError>(raw),
{
    lemma_trim_is_trimmed(raw);
    if is_valid_title(raw) {
        lemma_trim_keeps_trimmed(raw);
    }
}

/// Normalising a description twice is normalising it once, and what it gives is
/// a valid description.
pub proof fn law_description_norm_idempotent(raw: Option<Seq<char>>)
    ensures
        description_norm(description_norm(raw)) == description_norm(raw),
        is_valid_description(description_norm(raw)),
{
    if let Some(s) = raw {
        lemma_trim_is_trimmed(s);
        lemma_trim_idempotent(s);
    }
}

/// Completing an open to-do and then reopening it gives back the to-do as it
/// was, but for when it last changed.
pub proof fn law_complete_then_reopen(v: TodoView, t1: OffsetDateTime, t2: OffsetDateTime)
    requires
        !v.completed,
    ensures
        completion(v, t1) matches Ok(c) && reopening(c, t2) == Ok::<TodoView, TodoError>(
            TodoView { updated_at: t2, ..v },
        ),
{
}

/// Reopening a completed to-do and then completing it gives back the to-do as it
/// was, but for when it last changed.
pub proof fn law_reopen_then_complete(v: TodoView, t1: OffsetDateTime, t2: OffsetDateTime)
    requires
        v.completed,
    ensures
        reopening(v, t1) matches Ok(o) && completion(o, t2) == Ok::<TodoView, TodoError>(
            TodoView { updated_at: t2, ..v },
        ),
{
}

/// A to-do cannot be completed twice in a row, nor reopened twice in a row; a
/// refused change leaves nothing to apply.
pub proof fn law_no_repeated_transition(v: TodoView, t1: OffsetDateTime, t2: OffsetDateTime)
    ensures
        completion(v, t1) matches Ok(c) ==> completion(c, t2) == Err::<TodoView, TodoError>(
            TodoError::AlreadyCompleted,
        ),
        reopening(v, t1) matches Ok(o) ==> reopening(o, t2) == Err::<TodoView, TodoError>(
            TodoError::AlreadyOpen,
        ),
        completion(v, t1) is Ok <==> reopening(v, t2) is Err,
{
}

/// Completing, reopening and editing keep a to-do's identity and creation time,
/// and keep it valid.
pub proof fn law_changes_keep_identity(
    v: TodoView,
    title: Option<Seq<char>>,
    description: Option<Option<Seq<char>>>,
    now: OffsetDateTime,
)
    requires
        is_valid_todo(v),
        title matches Some(t) ==> is_valid_title(t),
        description matches Some(d) ==> is_valid_description(d),
    ensures
        edited(v, title, description, now).id == v.id,
        edited(v, title, description, now).created_at == v.created_at,
        edited(v, title, description, now).completed == v.completed,
        is_valid_todo(edited(v, title, description, now)),
        completion(v, now) matches Ok(c) ==> c.id == v.id && c.created_at == v.created_at
            && is_valid_todo(c),
        reopening(v, now) matches Ok(o) ==> o.id == v.id && o.created_at == v.created_at
            && is_valid_todo(o),
{
}

/// An edit changes only what it gives: with nothing given it only restamps the
/// to-do, a missing title or description keeps the old one, and an empty
/// description removes it.
pub proof fn law_edit_changes_only_what_is_given(
    v: TodoView,
    title: Option<Seq<char>>,
    description: Option<Option<Seq<char>>>,
    now: OffsetDateTime,
)
    ensures
        edited(v, None, None, now) == (TodoView { updated_at: now, ..v }),
        title is None ==> edited(v, title, description, now).title == v.title,
        description is None ==> edited(v, title, description, now).description == v.description,
        description == Some(None::<Seq<char>>) ==> edited(v, title, description, now).description
            is None,
        title matches Some(t) ==> edited(v, title, description, now).title == t,
{
}

/// A description is kept, whatever its length, exactly when it holds a character
/// that is not white space, and then it is the text trimmed; a missing or blank
/// description is dropped.
pub proof fn law_description_norm_exact(raw: Option<Seq<char>>)
    ensures
        raw is None ==> description_norm(raw) is None,
        raw matches Some(s) ==> (is_blank(s) ==> description_norm(raw) is None),
        raw matches Some(s) ==> (!is_blank(s) ==> description_norm(raw) == Some(trim(s))),
        raw matches Some(s) ==> (description_norm(raw) is Some <==> exists|i: int|
            0 <= i < s.len() && !is_white_space(#[trigger] s[i])),
{
    if let Some(s) = raw {
        lemma_trim_empty_iff_blank(s);
    }
}

} // verus!

//! The edit mode: a form of fields over one record, and the line editor used to change
//! a field's text.
use vstd::prelude::*;
use crate::applicators::{apply_result, writes_account_date};
use crate::date::{jiff_range, jiff_today};
use crate::helpers::{default_passphrase_settings, default_settings, gen_password, list_passphrase};
use crate::keys::Key;
use crate::list_state::ListState;
use crate::forms::{account_fields, form_keeps, lemma_account_field_keeps};
use crate::models::{
    fields_view, target_problem, Account, AccountModel, Field, FieldModel, Target, TargetModel,
};
use crate::text::{
    byte_count, byte_len, char_at_byte, char_boundary, char_index, chars_of, is_char_boundary,
    lemma_byte_len_insert, lemma_byte_len_remove, lemma_byte_len_take_mono, lemma_char_index,
    push_all, push_char, same_text, string_of, trim, trimmed,
};
use crate::validators::problem;

verus! {

/// The text being typed into a field, with the cursor position counted in bytes of its
/// UTF-8 text.
#[derive(Debug)]
pub struct Input {
    pub index: usize,
    pub value: String,
}

impl Default for Input {
    fn default() -> (r: Input)
        ensures
            r.index == 0,
            r.value@ == Seq::<char>::empty(),
    {
        Input { index: 0, value: String::new() }
    }
}

impl Input {
    /// The cursor lies within the text's bytes or just after its end.
    pub open spec fn wf(&self) -> bool {
        self.index <= byte_len(self.value@)
    }

    /// The cursor stands where a character starts, or at the end.
    pub open spec fn at_boundary(&self) -> bool {
        is_char_boundary(self.value@, self.index as int)
    }

    /// An input holding `value`, with the cursor after its last byte.
    pub fn from(value: String) -> (r: Self)
        ensures
            r.value == value,
            r.index == byte_len(value@),
            r.wf(),
    {
        let n = byte_count(value.as_str());
        Self { index: n, value }
    }

    /// Moves the cursor one byte to the left, unless it is at the start.
    pub fn backward(&mut self)
        ensures
            final(self).value == old(self).value,
            final(self).index == if old(self).index > 0 {
                (old(self).index - 1) as usize
            } else {
                old(self).index
            },
    {
        if self.index > 0 {
            self.index = self.index - 1;
        }
    }

    /// Moves the cursor one byte to the right, unless it is at the end.
    pub fn forward(&mut self)
        ensures
            final(self).value == old(self).value,
            final(self).index == if old(self).index < byte_len(old(self).value@) {
                (old(self).index + 1) as usize
            } else {
                old(self).index
            },
    {
        let n = byte_count(self.value.as_str());
        if self.index < n {
            self.index = self.index + 1;
        }
    }

    /// Removes the character that starts at the cursor, if there is one (the cursor must not
    /// stand inside a character, where `String::remove` panics).
    pub fn delete(&mut self)
        requires
            old(self).index < byte_len(old(self).value@) ==> old(self).at_boundary(),
        ensures
            old(self).wf() ==> final(self).wf(),
            final(self).index == old(self).index,
            final(self).value@ == if old(self).index < byte_len(old(self).value@) {
                old(self).value@.remove(char_index(old(self).value@, old(self).index as int))
            } else {
                old(self).value@
            },
    {
        let n = byte_count(self.value.as_str());
        if self.index < n {
            let v = chars_of(self.value.as_str());
            let k = char_at_byte(&v, self.index);
            proof {
                if k == v@.len() {
                    assert(v@.take(k as int) =~= v@);
                }
                lemma_byte_len_remove(v@, k as int);
            }
            let mut s = string_of(&v, 0, k);
            let rest = string_of(&v, k + 1, v.len());
            push_all(&mut s, rest.as_str());
            assert(s@ =~= v@.remove(k as int));
            self.value = s;
        }
    }

    /// Removes the character that starts one byte before the cursor and moves the cursor back
    /// one byte, unless the cursor is at the start (a byte before the cursor inside a
    /// character is where `String::remove` panics).
    pub fn backspace(&mut self)
        requires
            old(self).index > 0 ==> is_char_boundary(old(self).value@, old(self).index - 1)
                && old(self).index - 1 < byte_len(old(self).value@),
        ensures
            final(self).wf(),
            old(self).index > 0 ==> final(self).index == old(self).index - 1
                && final(self).value@ == old(self).value@.remove(
                char_index(old(self).value@, old(self).index - 1),
            ),
            old(self).index == 0 ==> final(self).index == 0 && final(self).value
                == old(self).value,
    {
        if self.index > 0 {
            let n = byte_count(self.value.as_str());
            let v = chars_of(self.value.as_str());
            let idx = self.index - 1;
            let k = char_at_byte(&v, idx);
            proof {
                if k == v@.len() {
                    assert(v@.take(k as int) =~= v@);
                }
                lemma_byte_len_remove(v@, k as int);
            }
            let mut s = string_of(&v, 0, k);
            let rest = string_of(&v, k + 1, v.len());
            push_all(&mut s, rest.as_str());
            assert(s@ =~= v@.remove(k as int));
            self.value = s;
            self.index = idx;
        }
    }

    /// Types a character at the cursor and moves the cursor one byte on (the cursor must stand
    /// where a character starts, or at the end, where `String::insert` does not panic).
    pub fn insert(&mut self, ch: char)
        requires
            old(self).at_boundary(),
        ensures
            final(self).wf(),
            final(self).index == if old(self).index < usize::MAX {
                old(self).index + 1
            } else {
                old(self).index as int
            },
            final(self).value@ == old(self).value@.insert(
                char_index(old(self).value@, old(self).index as int),
                ch,
            ),
    {
        let n = byte_count(self.value.as_str());
        let v = chars_of(self.value.as_str());
        let k = char_at_byte(&v, self.index);
        proof {
            lemma_byte_len_insert(v@, k as int, ch);
            lemma_byte_len_take_mono(v@, k as int, k as int);
        }
        let mut s = string_of(&v, 0, k);
        push_char(&mut s, ch);
        let rest = string_of(&v, k, v.len());
        push_all(&mut s, rest.as_str());
        assert(s@ =~= v@.insert(k as int, ch));
        self.value = s;
        if self.index < usize::MAX {
            self.index = self.index + 1;
        }
    }
}

/// The edit mode: the record being edited, its form, the selected field, the text being
/// typed into it, and the last submission error.
#[derive(Debug)]
pub struct Edit {
    pub target: Target,
    pub list: Vec<Field>,
    pub state: ListState,
    pub input: Option<Input>,
    pub error: Option<String>,
}

/// What edit mode asks of the application after a key.
#[derive(Debug)]
pub enum EditAction {
    Submit(Target),
    Copy(String),
    Paste,
    Return,
    Help,
    Quit,
    Nothing,
}

/// The record after every field of the form is written into it in order, or the first
/// error met.
pub open spec fn apply_all(fields: Seq<FieldModel>, t: TargetModel) -> Result<TargetModel, Seq<char>>
    decreases fields.len(),
{
    if fields.len() == 0 {
        Ok(t)
    } else {
        match apply_all(fields.drop_last(), t) {
            Ok(m) => apply_result(fields.last().applicator, m, fields.last().value),
            Err(e) => Err(e),
        }
    }
}

/// Once writing a prefix of the form fails, writing the whole form fails the same way.
proof fn lemma_apply_all_err(fields: Seq<FieldModel>, t: TargetModel, k: int)
    requires
        0 <= k <= fields.len(),
        apply_all(fields.take(k), t) is Err,
    ensures
        apply_all(fields, t) == apply_all(fields.take(k), t),
    decreases fields.len() - k,
{
    if k < fields.len() {
        assert(fields.drop_last().take(k) =~= fields.take(k));
        lemma_apply_all_err(fields.drop_last(), t, k);
    } else {
        assert(fields.take(k) =~= fields);
    }
}

/// The record that a submission sends: the written record, with an account's date of last
/// change set to `today`.
pub open spec fn submitted(m: TargetModel, sent: TargetModel) -> bool {
    match (m, sent) {
        (TargetModel::Account(a), TargetModel::Account(b)) => b == (AccountModel {
            last_change: b.last_change,
            ..a
        }) && jiff_range(b.last_change),
        (TargetModel::Account(_), _) => false,
        _ => sent == m,
    }
}

/// The keys that edit the text at the cursor find it where the `String` edits they make do
/// not panic: a character is typed where one starts or at the end; Delete removes the
/// character that starts at the cursor; Backspace the one that starts a byte before it, which
/// must lie within the text.
pub open spec fn cursor_fits(inp: Input, key: Key) -> bool {
    match key {
        Key::Char(_) => is_char_boundary(inp.value@, inp.index as int),
        Key::Delete => inp.index < byte_len(inp.value@) ==> is_char_boundary(
            inp.value@,
            inp.index as int,
        ),
        Key::Backspace => inp.index > 0 ==> is_char_boundary(inp.value@, inp.index - 1)
            && inp.index - 1 < byte_len(inp.value@),
        _ => true,
    }
}

impl Edit {
    /// The field under the selection, if the selection points at one.
    pub open spec fn selected_field(&self) -> Option<Field> {
        match self.state.selected {
            Some(i) => if i < self.list@.len() {
                Some(self.list@[i as int])
            } else {
                None
            },
            None => None,
        }
    }

    /// The selection is empty or points at a field.
    pub open spec fn selection_ok(&self) -> bool {
        self.state.selected is Some ==> self.selected_field() is Some
    }

    /// The keys that act on the selected field find one where they need it (as they always
    /// do after the form has been drawn), the text being typed keeps its cursor in place,
    /// and Enter only submits a form whose fields can all be written into the record.
    pub open spec fn accepts(&self, key: Key) -> bool {
        match self.input {
            Some(inp) => cursor_fits(inp, key) && (key == Key::Esc || key == Key::Enter
                ==> self.selection_ok()),
            None => match key {
                Key::Char(c) => (c == 'e' || c == 'i' || c == 'c' || c == 'P' || c == 'y')
                    ==> self.selection_ok(),
                Key::Enter => apply_all(fields_view(self.list@), self.target@) is Ok,
                _ => true,
            },
        }
    }

    /// A form over `target` with the fields `list`, the first one selected.
    pub fn new(target: Target, list: Vec<Field>) -> (r: Self)
        ensures
            r.target == target,
            r.list == list,
            r.state == (ListState { offset: 0, selected: Some(0usize) }),
            r.input is None,
            r.error is None,
    {
        let mut state = ListState::default();
        state.select_first();
        Self { target, list, state, input: None, error: None }
    }

    /// Writes every field of the form, in order, into a copy of the record. An account's own
    /// form, written back unchanged, gives the account back where `form_keeps` holds of it.
    pub fn apply_fields(&self) -> (r: Result<Target, String>)
        ensures
            match apply_all(fields_view(self.list@), self.target@) {
                Ok(m) => r matches Ok(t) && t@ == m,
                Err(e) => r matches Err(msg) && msg@ == e,
            },
            forall|a: Account|
                #[trigger] account_fields(a) == fields_view(self.list@) && self.target@
                    == TargetModel::Account(a@) && form_keeps(a) ==> (r matches Ok(t) && t@
                    == TargetModel::Account(a@)),
    {
        let mut target = self.target.duplicate();
        let mut i: usize = 0;
        while i < self.list.len()
            invariant
                i <= self.list@.len(),
                apply_all(fields_view(self.list@).take(i as int), self.target@) == Ok::<
                    TargetModel,
                    Seq<char>,
                >(target@),
                forall|a: Account|
                    #[trigger] account_fields(a) == fields_view(self.list@) && self.target@
                        == TargetModel::Account(a@) && form_keeps(a) ==> target@
                        == TargetModel::Account(a@),
            decreases self.list@.len() - i,
        {
            let ghost fs = fields_view(self.list@);
            let ghost before = target@;
            proof {
                assert(fs.take(i + 1).drop_last() =~= fs.take(i as int));
                assert(fs.take(i + 1).last() == self.list@[i as int]@);
            }
            let outcome = self.list[i].apply(&mut target);
            proof {
                assert forall|a: Account|
                    #[trigger] account_fields(a) == fields_view(self.list@) && self.target@
                        == TargetModel::Account(a@) && form_keeps(a) implies apply_result(
                    fs[i as int].applicator,
                    before,
                    fs[i as int].value,
                ) == Ok::<TargetModel, Seq<char>>(TargetModel::Account(a@)) by {
                    assert(fs[i as int] == self.list@[i as int]@);
                    assert(fs.len() == 8);
                    if i == 6 {
                        assert(writes_account_date(fs[6].applicator, before));
                    }
                    if i == 7 {
                        assert(writes_account_date(fs[7].applicator, before));
                    }
                    lemma_account_field_keeps(a, i as int);
                }
            }
            match outcome {
                Ok(()) => {},
                Err(e) => {
                    proof {
                        lemma_apply_all_err(fs, self.target@, i + 1);
                    }
                    return Err(e);
                },
            }
            i = i + 1;
        }
        assert(fields_view(self.list@).take(i as int) =~= fields_view(self.list@));
        Ok(target)
    }

    /// Whether `key` may be handled now (see `accepts`).
    pub fn can_handle(&self, key: Key) -> (r: bool)
        ensures
            r == self.accepts(key),
    {
        let selection_ok = match self.state.selected {
            Some(i) => i < self.list.len(),
            None => true,
        };
        match &self.input {
            Some(inp) => {
                let n = byte_count(inp.value.as_str());
                let v = chars_of(inp.value.as_str());
                let fits = match key {
                    Key::Char(_) => char_boundary(&v, inp.index),
                    Key::Delete => !(inp.index < n) || char_boundary(&v, inp.index),
                    Key::Backspace => !(inp.index > 0) || (inp.index - 1 < n && char_boundary(
                        &v,
                        inp.index - 1,
                    )),
                    _ => true,
                };
                fits && (!(key == Key::Esc || key == Key::Enter) || selection_ok)
            },
            None => match key {
                Key::Char(c) => !(c == 'e' || c == 'i' || c == 'c' || c == 'P' || c == 'y')
                    || selection_ok,
                Key::Enter => self.apply_fields().is_ok(),
                _ => true,
            },
        }
    }

    /// Pastes text into the field being typed, if any (the cursor stays where it was).
    pub fn paste(&mut self, text: String)
        ensures
            final(self).list == old(self).list,
            final(self).state == old(self).state,
            final(self).target == old(self).target,
            final(self).error == old(self).error,
            match old(self).input {
                Some(inp) => final(self).input matches Some(n) && n.value == text && n.index
                    == inp.index,
                None => final(self).input is None,
            },
    {
        match &mut self.input {
            Some(input) => {
                input.value = text;
            },
            None => {},
        }
    }

    /// Handles a key in edit mode (see `edit_step`).
    pub fn handle_inputs(&mut self, event: Key) -> (r: EditAction)
        requires
            old(self).accepts(event),
        ensures
            edit_step(*old(self), event, *final(self), r),
    {
        if self.input.is_some() {
            self.handle_edit_inputs(event);
            return EditAction::Nothing;
        }
        match event {
            Key::Char('?') => EditAction::Help,
            Key::Esc | Key::Char('q') => EditAction::Return,
            Key::Char('j') | Key::Down => {
                self.state.select_next();
                EditAction::Nothing
            },
            Key::Char('k') | Key::Up => {
                self.state.select_previous();
                EditAction::Nothing
            },
            Key::Char('e') | Key::Char('i') | Key::Char('c') => {
                if let Some(idx) = self.state.selected() {
                    let value = self.list[idx].value.clone();
                    self.input = Some(Input::from(value));
                }
                EditAction::Nothing
            },
            Key::Char('p') => {
                self.input = Some(Input::default());
                EditAction::Paste
            },
            Key::Char('P') => {
                if let Some(idx) = self.state.selected() {
                    if let Ok(password) = gen_password(default_settings()) {
                        if same_text(self.list[idx].label.as_str(), "Password") {
                            self.input = Some(Input::from(password));
                        }
                    }
                }
                EditAction::Nothing
            },
            Key::Char('y') => {
                if let Some(idx) = self.state.selected() {
                    EditAction::Copy(self.list[idx].value.clone())
                } else {
                    EditAction::Nothing
                }
            },
            Key::Enter => {
                let mut target = match self.apply_fields() {
                    Ok(t) => t,
                    Err(_) => {
                        return EditAction::Nothing;
                    },
                };
                match target.validate() {
                    Err(error) => {
                        self.error = Some(error);
                        EditAction::Nothing
                    },
                    Ok(()) => {
                        if let Target::Account(account) = &mut target {
                            account.last_change = jiff_today();
                        }
                        EditAction::Submit(target)
                    },
                }
            },
            _ => EditAction::Nothing,
        }
    }

    fn handle_edit_inputs(&mut self, event: Key)
        requires
            old(self).input is Some,
            old(self).accepts(event),
        ensures
            edit_input_step(*old(self), event, *final(self)),
    {
        match event {
            Key::Esc => {
                if let Some(idx) = self.state.selected() {
                    let mut field = self.list[idx].duplicate();
                    field.error = None;
                    self.list.set(idx, field);
                    assert(fields_view(self.list@) =~= fields_view(old(self).list@).update(
                        idx as int,
                        FieldModel { error: None, ..old(self).list@[idx as int]@ },
                    ));
                }
                self.input = None;
            },
            Key::Enter => {
                let value = match &self.input {
                    Some(input) => trimmed(input.value.as_str()),
                    None => String::new(),
                };
                let n = byte_count(value.as_str());
                self.input = Some(Input { index: n, value });
                self.handle_validation();
            },
            Key::Backspace => {
                let mut input = self.input.take().unwrap();
                input.backspace();
                self.input = Some(input);
            },
            Key::Delete => {
                let mut input = self.input.take().unwrap();
                input.delete();
                self.input = Some(input);
            },
            Key::Char(ch) => {
                let mut input = self.input.take().unwrap();
                input.insert(ch);
                self.input = Some(input);
            },
            Key::Left => {
                let mut input = self.input.take().unwrap();
                input.backward();
                self.input = Some(input);
            },
            Key::Right => {
                let mut input = self.input.take().unwrap();
                input.forward();
                self.input = Some(input);
            },
            _ => {},
        }
    }

    fn handle_validation(&mut self)
        requires
            old(self).input is Some,
            old(self).selection_ok(),
        ensures
            final(self).target == old(self).target,
            final(self).state == old(self).state,
            final(self).error == old(self).error,
            validation_step(*old(self), *final(self)),
    {
        if let Some(idx) = self.state.selected() {
            let value = match &self.input {
                Some(input) => input.value.clone(),
                None => String::new(),
            };
            let is_valid = match self.list[idx].validator {
                Some(validator) => validator.validate(value.as_str()),
                None => Ok(()),
            };
            let mut field = self.list[idx].duplicate();
            match is_valid {
                Ok(()) => {
                    field.value = value;
                    field.error = None;
                    self.list.set(idx, field);
                    self.input = None;
                    assert(fields_view(self.list@) =~= fields_view(old(self).list@).update(
                        idx as int,
                        FieldModel {
                            value: old(self).input->Some_0.value@,
                            error: None,
                            ..old(self).list@[idx as int]@
                        },
                    ));
                },
                Err(error) => {
                    field.error = Some(error);
                    self.list.set(idx, field);
                    assert(fields_view(self.list@) =~= fields_view(old(self).list@).update(
                        idx as int,
                        FieldModel { error: field_problem(old(self).list@[idx as int]@, old(self).input->Some_0.value@), ..old(self).list@[idx as int]@ },
                    ));
                },
            }
        }
    }
}

/// What a field's check says of a text: `None` where there is no check.
pub open spec fn field_problem(f: FieldModel, v: Seq<char>) -> Option<Seq<char>> {
    match f.validator {
        Some(validator) => problem(validator, v),
        None => None,
    }
}

/// Checking the typed text against the selected field: where the check passes the text
/// becomes the field's value, its error is cleared and typing ends; where it fails the field
/// shows the message and typing goes on. With nothing selected nothing changes.
pub open spec fn validation_step(before: Edit, after: Edit) -> bool {
    let v = before.input->Some_0.value@;
    match before.state.selected {
        Some(idx) => {
            let f = before.list@[idx as int]@;
            match field_problem(f, v) {
                None => fields_view(after.list@) == fields_view(before.list@).update(
                    idx as int,
                    FieldModel { value: v, error: None, ..f },
                ) && after.input is None,
                Some(e) => fields_view(after.list@) == fields_view(before.list@).update(
                    idx as int,
                    FieldModel { error: Some(e), ..f },
                ) && after.input == before.input,
            }
        },
        None => fields_view(after.list@) == fields_view(before.list@) && after.input
            == before.input,
    }
}

/// Edit mode's response to a key while a field's text is typed: Esc clears the selected
/// field's error and stops typing; Enter trims the text, puts the cursor at its end and
/// checks it (`validation_step`); Backspace, Delete, characters, Left and Right edit the
/// text as `Input` does; other keys do nothing.
pub open spec fn edit_input_step(before: Edit, key: Key, after: Edit) -> bool {
    let inp = before.input->Some_0;
    &&& after.target == before.target
    &&& after.state == before.state
    &&& after.error == before.error
    &&& match key {
        Key::Esc => after.input is None && fields_view(after.list@) == match before.state.selected {
            Some(idx) => fields_view(before.list@).update(
                idx as int,
                FieldModel { error: None, ..before.list@[idx as int]@ },
            ),
            None => fields_view(before.list@),
        },
        Key::Enter => exists|typed: Input|
            typed.value@ == trim(inp.value@) && typed.index == byte_len(trim(inp.value@))
                && #[trigger] validation_step(
                Edit { input: Some(typed), ..before },
                after,
            ),
        Key::Backspace => {
            &&& after.list == before.list
            &&& after.input matches Some(n)
            &&& n.wf()
            &&& if inp.index > 0 {
                n.index == inp.index - 1 && n.value@ == inp.value@.remove(
                    char_index(inp.value@, inp.index - 1),
                )
            } else {
                n.index == 0 && n.value == inp.value
            }
        },
        Key::Delete => {
            &&& after.list == before.list
            &&& after.input matches Some(n)
            &&& (inp.wf() ==> n.wf())
            &&& n.index == inp.index
            &&& n.value@ == if inp.index < byte_len(inp.value@) {
                inp.value@.remove(char_index(inp.value@, inp.index as int))
            } else {
                inp.value@
            }
        },
        Key::Char(c) => {
            &&& after.list == before.list
            &&& after.input matches Some(n)
            &&& n.wf()
            &&& n.index == if inp.index < usize::MAX {
                inp.index + 1
            } else {
                inp.index as int
            }
            &&& n.value@ == inp.value@.insert(char_index(inp.value@, inp.index as int), c)
        },
        Key::Left => {
            &&& after.list == before.list
            &&& after.input matches Some(n)
            &&& n.value == inp.value
            &&& n.index == if inp.index > 0 {
                (inp.index - 1) as usize
            } else {
                inp.index
            }
        },
        Key::Right => {
            &&& after.list == before.list
            &&& after.input matches Some(n)
            &&& n.value == inp.value
            &&& n.index == if inp.index < byte_len(inp.value@) {
                (inp.index + 1) as usize
            } else {
                inp.index
            }
        },
        _ => after.list == before.list && after.input == before.input,
    }
}

/// Edit mode's response to a key.
/// While a field's text is typed, the key goes to `edit_input_step` and nothing is asked.
/// Otherwise: `?` asks for help; Esc/`q` return; `j`/Down and `k`/Up move the selection;
/// `e`/`i`/`c` start typing with the selected field's text; `p` starts typing an empty text
/// and asks for a paste; `P` starts typing a passphrase generated with rustpass's default
/// settings where the selected field is the password; `y` copies the selected field's text;
/// Enter writes the form into the record and either shows the record's check error or
/// submits it (an account with today's date of last change).
pub open spec fn edit_step(before: Edit, key: Key, after: Edit, r: EditAction) -> bool {
    if before.input is Some {
        r is Nothing && edit_input_step(before, key, after)
    } else {
        &&& after.target == before.target
        &&& after.list == before.list
        &&& after.state == match key {
            Key::Char('j') | Key::Down => crate::modes::view::next_selected(before.state),
            Key::Char('k') | Key::Up => crate::modes::view::previous_selected(before.state),
            _ => before.state,
        }
        &&& match key {
            Key::Char('?') => r is Help && after.input is None && after.error == before.error,
            Key::Esc | Key::Char('q') => r is Return && after.input is None && after.error
                == before.error,
            Key::Char('e') | Key::Char('i') | Key::Char('c') => r is Nothing && after.error
                == before.error && match before.selected_field() {
                Some(f) => (after.input matches Some(n) && n.value == f.value && n.index
                    == byte_len(f.value@)),
                None => after.input is None,
            },
            Key::Char('p') => {
                &&& r is Paste
                &&& after.error == before.error
                &&& after.input matches Some(n)
                &&& n.index == 0
                &&& n.value@.len() == 0
            },
            Key::Char('P') => r is Nothing && after.error == before.error && match before.selected_field() {
                Some(f) => if f.label@ == "Password"@ {
                    after.input matches Some(n) && n.index == byte_len(n.value@) && list_passphrase(
                        default_passphrase_settings(),
                        n.value@,
                    )
                } else {
                    after.input is None
                },
                None => after.input is None,
            },
            Key::Char('y') => after.input is None && after.error == before.error && match before.selected_field() {
                Some(f) => (r matches EditAction::Copy(t) && t == f.value),
                None => r is Nothing,
            },
            Key::Enter => {
                &&& after.input is None
                &&& apply_all(fields_view(before.list@), before.target@) matches Ok(m)
                &&& match target_problem(m) {
                    Some(e) => r is Nothing && (after.error matches Some(msg) && msg@ == e),
                    None => after.error == before.error && (r matches EditAction::Submit(t)
                        && submitted(m, t@)),
                }
            },
            _ => r is Nothing && after.input is None && after.error == before.error,
        }
    }
}

/// A record that edit mode submits passes its record check: Enter only submits where the
/// written record has no problem, and the date of last change that it sets plays no part in
/// the check.
pub proof fn lemma_submitted_record_passes_check(before: Edit, after: Edit, t: Target)
    requires
        edit_step(before, Key::Enter, after, EditAction::Submit(t)),
    ensures
        target_problem(t@) is None,
{
}

/// Typing a character (`Input::insert`) and then pressing Backspace (`Input::backspace`)
/// gives back the text and the cursor of before, whatever the character's width: the cursor
/// stood where a character starts, so Backspace finds the typed character one byte back.
pub proof fn lemma_type_then_backspace(before: Input, typed: Input, erased: Input, ch: char)
    requires
        before.wf(),
        before.at_boundary(),
        typed.index == before.index + 1,
        typed.value@ == before.value@.insert(char_index(before.value@, before.index as int), ch),
        erased.index == typed.index - 1,
        erased.value@ == typed.value@.remove(char_index(typed.value@, typed.index - 1)),
    ensures
        is_char_boundary(typed.value@, typed.index - 1),
        erased.index == before.index,
        erased.value@ == before.value@,
{
    let s = before.value@;
    let k = char_index(s, before.index as int);
    lemma_byte_len_insert(s, k, ch);
    lemma_char_index(typed.value@, k);
    assert(erased.value@ =~= before.value@);
}

/// Moving the cursor right (`Input::forward`) and then left (`Input::backward`) brings it
/// back, unless it was at the end of the text.
pub proof fn lemma_forward_then_backward(before: Input, moved: Input, back: Input)
    requires
        before.index < byte_len(before.value@),
        moved.value == before.value,
        moved.index == before.index + 1,
        back.value == moved.value,
        back.index == if moved.index > 0 {
            moved.index - 1
        } else {
            moved.index as int
        },
    ensures
        back.index == before.index,
        back.value == before.value,
{
}

/// Each of the keys `e`, `i` and `c`, with a field selected and nothing being typed, starts
/// typing with that field's current text and the cursor after its last byte, and leaves the
/// form, the record, the selection and the error as they were.
pub proof fn lemma_edit_keys_start_with_field_text(
    before: Edit,
    after: Edit,
    r: EditAction,
    c: char,
    f: Field,
)
    requires
        c == 'e' || c == 'i' || c == 'c',
        before.input is None,
        before.selected_field() == Some(f),
        edit_step(before, Key::Char(c), after, r),
    ensures
        after.input matches Some(n) && n.value == f.value && n.value@ == f.value@ && n.index
            == byte_len(f.value@),
        after.list == before.list,
        after.target == before.target,
        after.state == before.state,
        after.error == before.error,
        r is Nothing,
{
}

} // verus!

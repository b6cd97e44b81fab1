//! The home screen: the list of services, narrowed by a case-insensitive filter.
use vstd::prelude::*;
use crate::keys::Key;
use crate::list_state::ListState;
use crate::models::Service;
use crate::text::{contains, occurs_at, contains_text, lowercase, pop_char, push_char, to_lowercase};

verus! {

/// The home screen: the filter text, the services with their selection, and whether the
/// filter is being typed.
#[derive(Debug)]
pub struct Home {
    pub filter: String,
    pub services: ServiceList,
    pub set_filter: bool,
}

/// A list of services and its selection.
#[derive(Debug)]
pub struct ServiceList {
    pub list: Vec<Service>,
    pub state: ListState,
}

/// What the home screen asks of the application after a key.
#[derive(Debug)]
pub enum HomeAction {
    Edit(Service),
    View(Service),
    Delete(Service),
    Copy(String),
    Help,
    Quit,
    Nothing,
}

/// A service is shown under a filter when its name, in lowercase, contains the filter in
/// lowercase.
pub open spec fn name_matches(s: Service, filter: Seq<char>) -> bool {
    contains(lowercase(s.name@), lowercase(filter))
}

/// The services shown under a filter, in their order.
pub open spec fn filtered(list: Seq<Service>, filter: Seq<char>) -> Seq<Service>
    decreases list.len(),
{
    if list.len() == 0 {
        Seq::empty()
    } else {
        let rest = filtered(list.drop_last(), filter);
        if name_matches(list.last(), filter) {
            rest.push(list.last())
        } else {
            rest
        }
    }
}

/// The home screen's response to a key while the filter is being typed: Esc clears it and
/// stops, Enter stops, Backspace and characters edit it.
pub open spec fn filter_step(filter: Seq<char>, key: Key) -> (Seq<char>, bool) {
    match key {
        Key::Esc => (Seq::empty(), false),
        Key::Char(c) => (filter.push(c), true),
        Key::Backspace => (
            if filter.len() > 0 {
                filter.drop_last()
            } else {
                filter
            },
            true,
        ),
        Key::Enter => (filter, false),
        _ => (filter, true),
    }
}

impl Home {
    /// The services shown under the current filter.
    pub open spec fn shown(&self) -> Seq<Service> {
        filtered(self.services.list@, self.filter@)
    }

    /// The service under the selection among those shown, if the selection points at one.
    pub open spec fn selected_service(&self) -> Option<Service> {
        match self.services.state.selected {
            Some(i) => if i < self.shown().len() {
                Some(self.shown()[i as int])
            } else {
                None
            },
            None => None,
        }
    }

    /// The keys that act on the selected service find one where they need it (as they
    /// always do after the list has been drawn).
    pub open spec fn accepts(&self, key: Key) -> bool {
        !self.set_filter ==> match key {
            Key::Char(c) => (c == 'e' || c == 'l' || c == 'y') ==> (self.services.list@.len() > 0
                ==> self.selected_service() is Some),
            Key::Enter => self.services.list@.len() > 0 ==> self.selected_service() is Some,
            Key::Delete => self.selected_service() is Some,
            _ => true,
        }
    }

    /// A home screen over `list`, the first service selected and no filter.
    pub fn new(list: Vec<Service>) -> (r: Self)
        ensures
            r.services.list == list,
            r.services.state == (ListState { offset: 0, selected: Some(0usize) }),
            r.filter@ == Seq::<char>::empty(),
            !r.set_filter,
    {
        let mut services = ServiceList { list, state: ListState::default() };
        services.state.select_first();
        Self { filter: String::new(), services, set_filter: false }
    }

    /// Whether `key` may be handled now (see `accepts`).
    pub fn can_handle(&self, key: Key) -> (r: bool)
        ensures
            r == self.accepts(key),
    {
        if self.set_filter {
            return true;
        }
        let needs = match key {
            Key::Char(c) => c == 'e' || c == 'l' || c == 'y',
            Key::Enter => true,
            _ => false,
        };
        if needs {
            self.services.list.len() == 0 || self.selection_index().is_some()
        } else if key == Key::Delete {
            self.selection_index().is_some()
        } else {
            true
        }
    }

    fn selection_index(&self) -> (r: Option<usize>)
        ensures
            r is Some <==> self.selected_service() is Some,
            r matches Some(i) ==> i < self.shown().len() && self.selected_service() == Some(
                self.shown()[i as int],
            ),
    {
        match self.services.state.selected {
            Some(i) => {
                let shown = self.shown_services();
                if i < shown.len() {
                    Some(i)
                } else {
                    None
                }
            },
            None => None,
        }
    }

    /// The services shown under the current filter.
    pub fn shown_services(&self) -> (r: Vec<Service>)
        ensures
            r@ == self.shown(),
            forall|s: Service|
                #[trigger] r@.contains(s) <==> self.services.list@.contains(s) && exists|i: int|
                    0 <= i && i + lowercase(self.filter@).len() <= lowercase(s.name@).len()
                        && #[trigger] lowercase(s.name@).subrange(
                        i,
                        i + lowercase(self.filter@).len(),
                    ) == lowercase(self.filter@),
    {
        let needle = to_lowercase(self.filter.as_str());
        let mut r: Vec<Service> = Vec::new();
        let mut i: usize = 0;
        while i < self.services.list.len()
            invariant
                i <= self.services.list@.len(),
                needle@ == lowercase(self.filter@),
                r@ == filtered(self.services.list@.subrange(0, i as int), self.filter@),
            decreases self.services.list@.len() - i,
        {
            let s = &self.services.list[i];
            let name = to_lowercase(s.name.as_str());
            let keep = contains_text(name.as_str(), needle.as_str());
            let ghost prefix = self.services.list@.subrange(0, i + 1);
            assert(prefix.drop_last() =~= self.services.list@.subrange(0, i as int));
            assert(prefix.last() == self.services.list@[i as int]);
            if keep {
                r.push(s.duplicate());
            }
            i = i + 1;
        }
        assert(self.services.list@.subrange(0, i as int) =~= self.services.list@);
        proof {
            assert forall|s: Service|
                #[trigger] r@.contains(s) <==> self.services.list@.contains(s) && exists|i: int|
                    0 <= i && i + lowercase(self.filter@).len() <= lowercase(s.name@).len()
                        && #[trigger] lowercase(s.name@).subrange(
                        i,
                        i + lowercase(self.filter@).len(),
                    ) == lowercase(self.filter@) by {
                lemma_filter_shows_exactly_the_matches(self.services.list@, self.filter@, s);
            }
        }
        r
    }

    /// Whether the filter line is drawn: while it is typed or while it is not empty.
    pub fn shows_filter(&self) -> (r: bool)
        ensures
            r == (self.set_filter || self.filter@.len() > 0),
    {
        self.set_filter || !self.filter.as_str().is_empty()
    }

    /// The names of the services shown, for drawing the list.
    pub fn shown_names(&self) -> (r: Vec<String>)
        ensures
            r@.len() == self.shown().len(),
            forall|k: int| 0 <= k < r@.len() ==> (#[trigger] r@[k])@ == self.shown()[k].name@,
    {
        let shown = self.shown_services();
        let mut names: Vec<String> = Vec::new();
        let mut k: usize = 0;
        while k < shown.len()
            invariant
                shown@ == self.shown(),
                k <= shown@.len(),
                names@.len() == k,
                forall|j: int| 0 <= j < k ==> (#[trigger] names@[j])@ == shown@[j].name@,
            decreases shown@.len() - k,
        {
            names.push(shown[k].name.clone());
            k = k + 1;
        }
        names
    }

    fn get_selected_service(&self) -> (r: Service)
        requires
            self.selected_service() is Some,
        ensures
            self.selected_service() == Some(r),
    {
        let shown = self.shown_services();
        let i = self.services.state.selected.unwrap();
        shown[i].duplicate()
    }

    /// Handles a key on the home screen (see `home_step`).
    pub fn handle_inputs(&mut self, event: Key) -> (r: HomeAction)
        requires
            old(self).accepts(event),
        ensures
            final(self).services.list == old(self).services.list,
            home_step(*old(self), event, *final(self), r),
    {
        if self.set_filter {
            return self.handle_filter_inputs(event);
        }
        match event {
            Key::Esc => {
                if self.filter.as_str().is_empty() {
                    assert(self.filter@ =~= Seq::<char>::empty());
                    HomeAction::Quit
                } else {
                    self.filter = String::new();
                    HomeAction::Nothing
                }
            },
            Key::Char('q') => HomeAction::Quit,
            Key::Char('h') | Key::Char('?') => HomeAction::Help,
            Key::Char('j') | Key::Down => {
                self.services.state.select_next();
                HomeAction::Nothing
            },
            Key::Char('k') | Key::Up => {
                self.services.state.select_previous();
                HomeAction::Nothing
            },
            Key::Char('e') => {
                if self.services.list.len() == 0 {
                    HomeAction::Nothing
                } else {
                    HomeAction::Edit(self.get_selected_service())
                }
            },
            Key::Char('n') => HomeAction::Edit(Service::default()),
            Key::Char('/') => {
                if self.services.list.len() != 0 {
                    self.set_filter = true;
                }
                HomeAction::Nothing
            },
            Key::Enter | Key::Char('l') => {
                if self.services.list.len() == 0 {
                    HomeAction::Nothing
                } else {
                    HomeAction::View(self.get_selected_service())
                }
            },
            Key::Char('y') => {
                if self.services.list.len() == 0 {
                    HomeAction::Nothing
                } else {
                    let service = self.get_selected_service();
                    HomeAction::Copy(service.name)
                }
            },
            Key::Delete => HomeAction::Delete(self.get_selected_service()),
            _ => HomeAction::Nothing,
        }
    }

    fn handle_filter_inputs(&mut self, event: Key) -> (r: HomeAction)
        requires
            old(self).set_filter,
        ensures
            r is Nothing,
            final(self).services == old(self).services,
            (final(self).filter@, final(self).set_filter) == filter_step(old(self).filter@, event),
    {
        match event {
            Key::Esc => {
                self.filter = String::new();
                self.set_filter = false;
                HomeAction::Nothing
            },
            Key::Char(ch) => {
                push_char(&mut self.filter, ch);
                HomeAction::Nothing
            },
            Key::Backspace => {
                pop_char(&mut self.filter);
                HomeAction::Nothing
            },
            Key::Enter => {
                self.set_filter = false;
                HomeAction::Nothing
            },
            _ => HomeAction::Nothing,
        }
    }
}

/// The home screen's response to a key: its state afterwards and the action asked for.
/// While the filter is typed, keys edit the filter (`filter_step`). Otherwise Esc clears a
/// filter or else quits; `q` quits; `h` or `?` asks for help; `j`/Down and `k`/Up move the
/// selection; `/` starts typing the filter where there are services; `n` edits a new
/// service; `e`, Enter/`l` and `y` edit, open and copy the name of the selected service
/// where there are services; Delete deletes the selected service.
pub open spec fn home_step(before: Home, key: Key, after: Home, r: HomeAction) -> bool {
    let empty = before.services.list@.len() == 0;
    if before.set_filter {
        &&& r is Nothing
        &&& after.services.state == before.services.state
        &&& (after.filter@, after.set_filter) == filter_step(before.filter@, key)
    } else {
        &&& after.set_filter == (before.set_filter || (key == Key::Char('/') && !empty))
        &&& after.filter@ == if key == Key::Esc {
            Seq::empty()
        } else {
            before.filter@
        }
        &&& after.services.state == match key {
            Key::Char('j') | Key::Down => ListState {
                selected: Some(
                    match before.services.state.selected {
                        Some(i) => if i == usize::MAX {
                            i
                        } else {
                            (i + 1) as usize
                        },
                        None => 0,
                    },
                ),
                ..before.services.state
            },
            Key::Char('k') | Key::Up => ListState {
                selected: Some(
                    match before.services.state.selected {
                        Some(i) => if i == 0 {
                            0
                        } else {
                            (i - 1) as usize
                        },
                        None => usize::MAX,
                    },
                ),
                ..before.services.state
            },
            _ => before.services.state,
        }
        &&& match key {
            Key::Esc => if before.filter@.len() == 0 {
                r is Quit
            } else {
                r is Nothing
            },
            Key::Char('q') => r is Quit,
            Key::Char('h') | Key::Char('?') => r is Help,
            Key::Char('e') => if empty {
                r is Nothing
            } else {
                r matches HomeAction::Edit(s) && before.selected_service() == Some(s)
            },
            Key::Char('n') => r matches HomeAction::Edit(s) && s@.id is None && s@.name.len() == 0
                && s@.url is None,
            Key::Enter | Key::Char('l') => if empty {
                r is Nothing
            } else {
                r matches HomeAction::View(s) && before.selected_service() == Some(s)
            },
            Key::Char('y') => if empty {
                r is Nothing
            } else {
                r matches HomeAction::Copy(t) && before.selected_service() matches Some(s)
                    && t == s.name
            },
            Key::Delete => r matches HomeAction::Delete(s) && before.selected_service() == Some(s),
            _ => r is Nothing,
        }
    }
}

/// An empty filter shows every service.
pub proof fn lemma_empty_filter_shows_all(list: Seq<Service>, filter: Seq<char>)
    requires
        lowercase(filter).len() == 0,
    ensures
        filtered(list, filter) == list,
    decreases list.len(),
{
    if list.len() > 0 {
        lemma_empty_filter_shows_all(list.drop_last(), filter);
        let name = lowercase(list.last().name@);
        assert(name.subrange(0, 0) =~= lowercase(filter));
        assert(occurs_at(name, lowercase(filter), 0));
        assert(list.drop_last().push(list.last()) =~= list);
    }
}

/// Every service shown under a filter matches it, and comes from the list.
pub proof fn lemma_filtered_match(list: Seq<Service>, filter: Seq<char>)
    ensures
        forall|k: int|
            0 <= k < filtered(list, filter).len() ==> name_matches(
                #[trigger] filtered(list, filter)[k],
                filter,
            ) && list.contains(filtered(list, filter)[k]),
        filtered(list, filter).len() <= list.len(),
    decreases list.len(),
{
    if list.len() > 0 {
        lemma_filtered_match(list.drop_last(), filter);
        let rest = filtered(list.drop_last(), filter);
        assert forall|k: int| 0 <= k < filtered(list, filter).len() implies name_matches(
            #[trigger] filtered(list, filter)[k],
            filter,
        ) && list.contains(filtered(list, filter)[k]) by {
            if k < rest.len() {
                assert(filtered(list, filter)[k] == rest[k]);
                let j = choose|j: int| 0 <= j < list.drop_last().len() && list.drop_last()[j] == rest[k];
                assert(list[j] == rest[k]);
            } else {
                assert(list[list.len() - 1] == list.last());
            }
        }
    }
}

/// The services shown under a filter are exactly the services of the list whose lowercase
/// name holds the lowercase filter somewhere (not only at its start).
pub proof fn lemma_filter_shows_exactly_the_matches(list: Seq<Service>, filter: Seq<char>, s: Service)
    ensures
        filtered(list, filter).contains(s) <==> list.contains(s) && exists|i: int|
            0 <= i && i + lowercase(filter).len() <= lowercase(s.name@).len() && #[trigger] lowercase(
                s.name@,
            ).subrange(i, i + lowercase(filter).len()) == lowercase(filter),
    decreases list.len(),
{
    let n = lowercase(s.name@);
    let f = lowercase(filter);
    if list.len() == 0 {
        assert(!filtered(list, filter).contains(s));
    } else {
        let init = list.drop_last();
        let rest = filtered(init, filter);
        lemma_filter_shows_exactly_the_matches(init, filter, s);
        assert(list =~= init.push(list.last()));
        assert(list.contains(s) <==> init.contains(s) || list.last() == s) by {
            if list.contains(s) && !init.contains(s) {
                let j = choose|j: int| 0 <= j < list.len() && list[j] == s;
                if j < list.len() - 1 {
                    assert(init[j] == s);
                }
            }
            if init.contains(s) {
                let j = choose|j: int| 0 <= j < init.len() && init[j] == s;
                assert(list[j] == s);
            }
            if list.last() == s {
                assert(list[list.len() - 1] == s);
            }
        }
        if name_matches(list.last(), filter) {
            assert(rest.push(list.last()).contains(s) <==> rest.contains(s) || list.last() == s) by {
                if rest.push(list.last()).contains(s) && !rest.contains(s) {
                    let j = choose|j: int| 0 <= j < rest.len() + 1 && rest.push(list.last())[j] == s;
                    if j < rest.len() {
                        assert(rest[j] == s);
                    }
                }
                if rest.contains(s) {
                    let j = choose|j: int| 0 <= j < rest.len() && rest[j] == s;
                    assert(rest.push(list.last())[j] == s);
                }
                if list.last() == s {
                    assert(rest.push(list.last())[rest.len() as int] == s);
                }
            }
        }
        if list.last() == s {
            if name_matches(s, filter) {
                let i = choose|i: int| occurs_at(n, f, i);
                assert(n.subrange(i, i + f.len()) == f);
            } else {
                assert forall|i: int|
                    0 <= i && i + f.len() <= n.len() implies #[trigger] n.subrange(i, i + f.len())
                    != f by {
                    if n.subrange(i, i + f.len()) == f {
                        assert(occurs_at(n, f, i));
                    }
                }
            }
        }
    }
}

} // verus!

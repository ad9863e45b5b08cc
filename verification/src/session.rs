//! Sessions: what a caller holds between opening a session and closing it.

use vstd::prelude::*;
use crate::attr::{template_matches, AttributeView, Template};
use crate::db::{add_is_stable, stable_in_is_transitive, Db, DbView};
use crate::error::Error;
use crate::login::{LoginCtx, UserMode};
use crate::mechanism::Mechanism;
use crate::object::Object;
use crate::sign::SignCtx;

verus! {

/// Whether a search with `filter` is to return `object`. Without a filter
/// every object is returned.
pub open spec fn admits(filter: Option<Seq<AttributeView>>, object: Object) -> bool {
    match filter {
        None => true,
        Some(template) => template_matches(template, object.attrs@),
    }
}

/// Outcome of going through a listing of the HSM's objects.
pub struct Listed {
    /// The catalog after the objects have been put in.
    pub view: DbView,
    /// Handles of the objects that the filter admits, in the listing's order.
    pub handles: Seq<u64>,
    /// Whether every object got a handle.
    pub complete: bool,
}

/// Goes through the first `upto` objects of `listing`: each is put into the
/// catalog, and those that `filter` admits are noted by handle.
pub open spec fn listed(
    view: DbView,
    listing: Seq<Object>,
    filter: Option<Seq<AttributeView>>,
    upto: int,
) -> Listed
    decreases upto,
{
    if upto <= 0 {
        Listed { view, handles: Seq::empty(), complete: true }
    } else {
        let before = listed(view, listing, filter, upto - 1);
        let object = listing[upto - 1];
        match before.view.handle_for(object) {
            None => Listed { view: before.view, handles: before.handles, complete: false },
            Some(handle) => Listed {
                view: before.view.add(object),
                handles: if admits(filter, object) {
                    before.handles.push(handle)
                } else {
                    before.handles
                },
                complete: before.complete,
            },
        }
    }
}

/// The first `count` handles of a cursor, or all of them where it has fewer.
pub open spec fn chunk_of(cursor: Seq<u64>, count: nat) -> Seq<u64> {
    if count >= cursor.len() {
        cursor
    } else {
        cursor.subrange(0, count as int)
    }
}

/// What is left of a cursor after its first `count` handles.
pub open spec fn rest_of(cursor: Seq<u64>, count: nat) -> Seq<u64> {
    if count >= cursor.len() {
        Seq::empty()
    } else {
        cursor.subrange(count as int, cursor.len() as int)
    }
}

/// A session of the token.
#[derive(Clone, Debug)]
pub struct Session {
    /// The roles the session is logged in for.
    pub login_ctx: LoginCtx,
    /// The handles that a search has still to return; present between the
    /// start of a search and its end.
    pub cursor: Option<Vec<u64>>,
    /// The signing operation under way, if there is one.
    pub sign_ctx: Option<SignCtx>,
}

impl Session {
    /// The handles still to be returned by the search under way.
    pub open spec fn pending(&self) -> Option<Seq<u64>> {
        match self.cursor {
            Some(handles) => Some(handles@),
            None => None,
        }
    }

    /// A fresh session: logged in for nothing, no search, no signing.
    pub fn new() -> (out: Session)
        ensures
            out.login_ctx == LoginCtx::anonymous_spec(),
            out.cursor is None,
            out.sign_ctx is None,
    {
        Session { login_ctx: LoginCtx::anonymous(), cursor: None, sign_ctx: None }
    }

    /// Records a successful login as `mode`.
    pub fn login(&mut self, mode: UserMode)
        ensures
            final(self).login_ctx.holds(mode),
            forall|other: UserMode|
                other != mode ==> final(self).login_ctx.holds(other) == old(self).login_ctx.holds(
                    other,
                ),
            final(self).cursor == old(self).cursor,
            final(self).sign_ctx == old(self).sign_ctx,
    {
        self.login_ctx = self.login_ctx.with_role(mode);
    }

    /// Drops every role.
    pub fn logout(&mut self)
        ensures
            final(self).login_ctx == LoginCtx::anonymous_spec(),
            final(self).cursor == old(self).cursor,
            final(self).sign_ctx == old(self).sign_ctx,
    {
        self.login_ctx = self.login_ctx.logout();
    }

    /// Begins a search over `listing`, the objects that the HSM reports.
    /// Every object is put into the catalog; the handles of those that the
    /// filter admits become the cursor, in the listing's order. Where the
    /// catalog has no handle left for an object, the search does not begin.
    pub fn enum_init(&mut self, db: &mut Db, template: Option<&Template>, listing: Vec<Object>) -> (out:
        Result<(), Error>)
        requires
            old(db).wf(),
        ensures
            final(db).wf(),
            final(self).login_ctx == old(self).login_ctx,
            final(self).sign_ctx == old(self).sign_ctx,
            ({
                let filter = match template {
                    Some(t) => Some(t@),
                    None => None,
                };
                let all = listed(old(db)@, listing@, filter, listing@.len() as int);
                &&& final(db)@ == all.view
                &&& if all.complete {
                    out is Ok && final(self).pending() == Some(all.handles)
                } else {
                    out == Err::<(), Error>(Error::GeneralError) && final(self).cursor
                        == old(self).cursor
                }
            }),
    {
        let ghost filter = match template {
            Some(t) => Some(t@),
            None => None,
        };
        let ghost all_objects = listing@;
        let total: usize = listing.len();
        let mut rest = listing;
        let mut handles: Vec<u64> = Vec::new();
        let mut complete = true;
        let mut done: usize = 0;
        while done < total
            invariant
                db.wf(),
                total == all_objects.len(),
                done <= total,
                rest@ == all_objects.subrange(done as int, total as int),
                filter == match template {
                    Some(t) => Some(t@),
                    None => None,
                },
                db@ == listed(old(db)@, all_objects, filter, done as int).view,
                handles@ == listed(old(db)@, all_objects, filter, done as int).handles,
                complete == listed(old(db)@, all_objects, filter, done as int).complete,
            decreases total - done,
        {
            let object = rest.remove(0);
            assert(object == all_objects[done as int]);
            assert(rest@ =~= all_objects.subrange(done + 1, total as int));
            let admitted = match template {
                Some(t) => t.matches(&object),
                None => true,
            };
            match db.add_object(object) {
                Some(handle) => {
                    if admitted {
                        handles.push(handle);
                    }
                },
                None => {
                    complete = false;
                },
            }
            done += 1;
        }
        if complete {
            self.cursor = Some(handles);
            Ok(())
        } else {
            Err(Error::GeneralError)
        }
    }

    /// Returns the next handles of the search, at most `max_count` of them,
    /// and moves the cursor past them. At the end of the search the result
    /// is empty. Without a search under way the call fails.
    pub fn enum_next_chunk(&mut self, max_count: usize) -> (out: Result<Vec<u64>, Error>)
        ensures
            final(self).login_ctx == old(self).login_ctx,
            final(self).sign_ctx == old(self).sign_ctx,
            match old(self).pending() {
                None => out == Err::<Vec<u64>, Error>(Error::GeneralError) && final(self).cursor
                    is None,
                Some(cursor) => (out matches Ok(chunk) && chunk@ == chunk_of(
                    cursor,
                    max_count as nat,
                )) && final(self).pending() == Some(rest_of(cursor, max_count as nat)),
            },
    {
        let cursor = match self.cursor.take() {
            Some(cursor) => cursor,
            None => {
                return Err(Error::GeneralError);
            },
        };
        let count: usize = if max_count >= cursor.len() {
            cursor.len()
        } else {
            max_count
        };
        let mut chunk: Vec<u64> = Vec::new();
        let mut rest: Vec<u64> = Vec::new();
        let mut i: usize = 0;
        while i < cursor.len()
            invariant
                count <= cursor@.len(),
                i <= cursor@.len(),
                chunk@ == cursor@.subrange(0, if i <= count { i as int } else { count as int }),
                rest@ == cursor@.subrange(count as int, if i <= count { count as int } else { i as int }),
            decreases cursor@.len() - i,
        {
            if i < count {
                chunk.push(cursor[i]);
                assert(chunk@ =~= cursor@.subrange(0, i + 1));
            } else {
                rest.push(cursor[i]);
                assert(rest@ =~= cursor@.subrange(count as int, i + 1));
            }
            i += 1;
        }
        proof {
            assert(chunk@ =~= chunk_of(cursor@, max_count as nat));
            assert(rest@ =~= rest_of(cursor@, max_count as nat));
        }
        self.cursor = Some(rest);
        Ok(chunk)
    }

    /// Ends the search. Ending a search that is not under way is allowed and
    /// changes nothing.
    pub fn enum_final(&mut self)
        ensures
            final(self).cursor is None,
            final(self).login_ctx == old(self).login_ctx,
            final(self).sign_ctx == old(self).sign_ctx,
    {
        self.cursor = None;
    }

    /// Begins a signing operation on `key`. An operation that was under way
    /// is given up, also where the new one cannot begin.
    pub fn sign_init(&mut self, mechanism: Mechanism, key: Object) -> (out: Result<(), Error>)
        ensures
            final(self).login_ctx == old(self).login_ctx,
            final(self).cursor == old(self).cursor,
            out is Ok <==> final(self).sign_ctx is Some,
            out is Ok <==> SignCtx::can_begin(mechanism, key, old(self).login_ctx),
            out matches Err(err) ==> SignCtx::refusal(mechanism, key, old(self).login_ctx, err),
            final(self).sign_ctx matches Some(ctx) ==> ctx.mechanism == mechanism && ctx.key == key
                && ctx.data@ == Seq::<u8>::empty() && ctx.login_ctx == old(self).login_ctx && Some(
                ctx.sign_name,
            ) == mechanism.sign_mode_of(),
    {
        self.sign_ctx = None;
        match SignCtx::init(mechanism, key, self.login_ctx) {
            Ok(ctx) => {
                self.sign_ctx = Some(ctx);
                Ok(())
            },
            Err(err) => Err(err),
        }
    }

    /// Appends `data` to the message of the signing operation under way.
    /// Without one the call fails and changes nothing.
    pub fn sign_update(&mut self, data: &[u8]) -> (out: Result<(), Error>)
        ensures
            final(self).login_ctx == old(self).login_ctx,
            final(self).cursor == old(self).cursor,
            match old(self).sign_ctx {
                None => out == Err::<(), Error>(Error::GeneralError) && final(self).sign_ctx
                    is None,
                Some(before) => out is Ok && (final(self).sign_ctx matches Some(after)
                    && after.data@ == before.data@ + data@ && after.mechanism == before.mechanism
                    && after.sign_name == before.sign_name && after.key == before.key
                    && after.login_ctx == before.login_ctx),
            },
    {
        match self.sign_ctx.take() {
            Some(ctx) => {
                let mut ctx = ctx;
                ctx.update(data);
                self.sign_ctx = Some(ctx);
                Ok(())
            },
            None => Err(Error::GeneralError),
        }
    }

    /// Ends the signing operation under way and hands it out, so that it can
    /// be used for one request and one answer and for nothing after that.
    pub fn sign_take(&mut self) -> (out: Result<SignCtx, Error>)
        ensures
            final(self).login_ctx == old(self).login_ctx,
            final(self).cursor == old(self).cursor,
            final(self).sign_ctx is None,
            match old(self).sign_ctx {
                None => out == Err::<SignCtx, Error>(Error::GeneralError),
                Some(ctx) => out == Ok::<SignCtx, Error>(ctx),
            },
    {
        match self.sign_ctx.take() {
            Some(ctx) => Ok(ctx),
            None => Err(Error::GeneralError),
        }
    }
}

/// A search gives no handle to another object: every handle that was live
/// before the listing was gone through stands for the same identifier and
/// kind afterwards, and the catalog stays well-formed.
pub proof fn search_keeps_handles(
    view: DbView,
    listing: Seq<Object>,
    filter: Option<Seq<AttributeView>>,
    upto: int,
)
    requires
        view.wf(),
        upto <= listing.len(),
    ensures
        listed(view, listing, filter, upto).view.wf(),
        view.stable_in(listed(view, listing, filter, upto).view),
    decreases upto,
{
    if upto > 0 {
        search_keeps_handles(view, listing, filter, upto - 1);
        let before = listed(view, listing, filter, upto - 1);
        let object = listing[upto - 1];
        add_is_stable(before.view, object);
        if before.view.handle_for(object) is Some {
            stable_in_is_transitive(view, before.view, before.view.add(object));
        }
    }
}

/// Every handle that a search returns is live in the catalog afterwards.
pub proof fn search_returns_live_handles(
    view: DbView,
    listing: Seq<Object>,
    filter: Option<Seq<AttributeView>>,
    upto: int,
)
    requires
        view.wf(),
        upto <= listing.len(),
    ensures
        forall|k: int|
            0 <= k < listed(view, listing, filter, upto).handles.len() ==> listed(
                view,
                listing,
                filter,
                upto,
            ).view.objects.contains_key(#[trigger] listed(view, listing, filter, upto).handles[k]),
    decreases upto,
{
    if upto > 0 {
        search_keeps_handles(view, listing, filter, upto - 1);
        search_returns_live_handles(view, listing, filter, upto - 1);
        let before = listed(view, listing, filter, upto - 1);
        let object = listing[upto - 1];
        add_is_stable(before.view, object);
    }
}

/// The table of open sessions. Session handles start at 1, rise by one with
/// every session opened, and are never given out a second time.
#[derive(Clone, Debug)]
pub struct SessionManager {
    /// The session with handle `i + 1` at index `i`; `None` once closed.
    slots: Vec<Option<Session>>,
}

impl View for SessionManager {
    type V = Map<u64, Session>;

    closed spec fn view(&self) -> Map<u64, Session> {
        Map::new(
            |h: u64| 1 <= h <= self.slots@.len() && self.slots@[h - 1] is Some,
            |h: u64| self.slots@[h - 1].unwrap(),
        )
    }
}

impl SessionManager {
    /// Number of handles given out so far.
    pub closed spec fn opened(&self) -> nat {
        self.slots@.len()
    }

    /// Whether the handles have run out: the next one would not fit the
    /// machine's word.
    pub open spec fn exhausted(&self) -> bool {
        self.opened() >= usize::MAX || self.opened() >= u64::MAX
    }

    /// Every open session has a handle that was given out.
    pub proof fn handles_are_bounded(&self)
        ensures
            forall|h: u64| #[trigger] self@.contains_key(h) ==> 1 <= h <= self.opened(),
    {
    }

    /// A table without sessions.
    pub fn new() -> (out: SessionManager)
        ensures
            out@ == Map::<u64, Session>::empty(),
            out.opened() == 0,
    {
        let out = SessionManager { slots: Vec::new() };
        assert(out@ =~= Map::<u64, Session>::empty());
        out
    }

    /// Opens a session and returns its handle, the number of handles given
    /// out before plus one. The session is logged in for nothing and has no
    /// search and no signing under way. Returns nothing, and changes nothing,
    /// where the handles have run out.
    pub fn open(&mut self) -> (out: Option<u64>)
        ensures
            out is None <==> old(self).exhausted(),
            match out {
                Some(handle) => {
                    let fresh = final(self)@[handle];
                    &&& handle == old(self).opened() + 1
                    &&& final(self).opened() == handle
                    &&& final(self)@.contains_key(handle)
                    &&& final(self)@ == old(self)@.insert(handle, fresh)
                    &&& fresh.login_ctx == LoginCtx::anonymous_spec()
                    &&& fresh.cursor is None
                    &&& fresh.sign_ctx is None
                },
                None => {
                    &&& old(self).exhausted()
                    &&& final(self)@ == old(self)@
                    &&& final(self).opened() == old(self).opened()
                },
            },
    {
        let count: usize = self.slots.len();
        if count >= usize::MAX || count as u64 >= u64::MAX {
            return None;
        }
        let handle: u64 = count as u64 + 1;
        let ghost before = *self;
        self.slots.push(Some(Session::new()));
        proof {
            assert(self.slots@[handle - 1] is Some);
            assert(self@ =~= before@.insert(handle, self@[handle]));
        }
        Some(handle)
    }

    /// Closes a session and drops all its state. An unknown handle is
    /// refused. The handle is not given out again.
    pub fn close(&mut self, handle: u64) -> (out: Result<(), Error>)
        ensures
            final(self).opened() == old(self).opened(),
            final(self)@ == old(self)@.remove(handle),
            old(self)@.contains_key(handle) ==> out is Ok,
            !old(self)@.contains_key(handle) ==> out == Err::<(), Error>(Error::SessionInvalid),
    {
        let ghost before = *self;
        if handle >= 1 && handle - 1 < self.slots.len() as u64 {
            let index: usize = (handle - 1) as usize;
            let known = self.slots[index].is_some();
            if known {
                self.slots.set(index, None);
                assert(self@ =~= before@.remove(handle));
                return Ok(());
            }
        }
        assert(self@ =~= before@.remove(handle));
        Err(Error::SessionInvalid)
    }

    /// The session with this handle.
    pub fn get(&self, handle: u64) -> (out: Option<&Session>)
        ensures
            match out {
                Some(session) => self@.contains_key(handle) && self@[handle] == *session,
                None => !self@.contains_key(handle),
            },
    {
        if handle >= 1 && handle - 1 < self.slots.len() as u64 {
            let index: usize = (handle - 1) as usize;
            match &self.slots[index] {
                Some(session) => Some(session),
                None => None,
            }
        } else {
            None
        }
    }

    /// The session with this handle, for an operation that changes it. No
    /// other session is touched, whatever the operation does.
    pub fn session_mut(&mut self, handle: u64) -> (out: Option<&mut Session>)
        ensures
            final(self).opened() == old(self).opened(),
            match out {
                Some(session) => {
                    &&& old(self)@.contains_key(handle)
                    &&& *session == old(self)@[handle]
                    &&& final(self)@ == old(self)@.insert(handle, *final(session))
                },
                None => !old(self)@.contains_key(handle) && final(self)@ == old(self)@,
            },
    {
        if handle >= 1 && handle - 1 < self.slots.len() as u64 {
            let index: usize = (handle - 1) as usize;
            match &mut self.slots[index] {
                Some(session) => Some(session),
                None => None,
            }
        } else {
            None
        }
    }
}

} // verus!

//! Entry points for objects: searching, reading and changing attributes,
//! creating and destroying. Each takes what the caller handed over as plain
//! values (a missing pointer is `None` or `false`) and yields the status to
//! report. Where an entry point needs the HSM in the middle, it comes in two
//! parts: what is decided before the call, and what follows its answer.

use vstd::prelude::*;
use crate::alias::{alias_from_id, alias_of, AliasTable};
use crate::attr::{
    declared, supplied, template_filled, Attribute, Template, CKA_ID,
};
use crate::db::Db;
use crate::error::{Error, Status};
use crate::key::{import_of, key_import, KeyImport};
use crate::object::Object;
use crate::session::{chunk_of, listed, rest_of, SessionManager};

verus! {

/// The size in bits that is reported for an object; zero where it is not
/// known.
pub open spec fn reported_size(object: Object) -> usize {
    match object.size {
        Some(bits) => bits,
        None => 0,
    }
}

/// Begins a search: what is settled before the HSM is asked for its objects.
/// A count above zero without an array, or beyond the array, is refused
/// first; then an unknown session. What comes back is the filter of the
/// search, none where the caller gave no array.
#[allow(non_snake_case)]
pub fn C_FindObjectsInit(
    manager: &SessionManager,
    h_session: u64,
    template: Option<Vec<Attribute>>,
    count: usize,
) -> (out: Result<Option<Template>, Status>)
    ensures
        match template {
            None => if count > 0 {
                out == Err::<Option<Template>, Status>(Status::ArgumentsBad)
            } else if !manager@.contains_key(h_session) {
                out == Err::<Option<Template>, Status>(Status::SessionHandleInvalid)
            } else {
                out == Ok::<Option<Template>, Status>(None)
            },
            Some(entries) => match declared(entries@, count) {
                None => out == Err::<Option<Template>, Status>(Status::ArgumentsBad),
                Some(content) => if !manager@.contains_key(h_session) {
                    out == Err::<Option<Template>, Status>(Status::SessionHandleInvalid)
                } else {
                    out matches Ok(Some(filter)) && filter@ == content
                },
            },
        },
{
    let filter = match template {
        None => {
            if count > 0 {
                return Err(Status::ArgumentsBad);
            }
            None
        },
        Some(entries) => match Template::parse(Some(entries), count) {
            Ok(filter) => Some(filter),
            Err(err) => {
                return Err(err.status());
            },
        },
    };
    if manager.get(h_session).is_none() {
        return Err(Status::SessionHandleInvalid);
    }
    Ok(filter)
}

/// Begins a search: what follows the HSM's answer. A failure of the backend
/// is reported as it is and changes nothing. Otherwise the objects listed
/// are put into the catalog, and the session's cursor is set to the handles
/// of those that the filter admits.
pub fn complete_find_objects_init(
    manager: &mut SessionManager,
    db: &mut Db,
    h_session: u64,
    filter: Option<&Template>,
    listing: Result<Vec<Object>, Error>,
) -> (out: Status)
    requires
        old(db).wf(),
    ensures
        final(db).wf(),
        final(manager).opened() == old(manager).opened(),
        match listing {
            Err(err) => out == err.status_of() && final(db)@ == old(db)@ && final(manager)@
                == old(manager)@,
            Ok(objects) => if !old(manager)@.contains_key(h_session) {
                out == Status::SessionHandleInvalid && final(db)@ == old(db)@ && final(manager)@
                    == old(manager)@
            } else {
                let content = match filter {
                    Some(t) => Some(t@),
                    None => None,
                };
                let all = listed(old(db)@, objects@, content, objects@.len() as int);
                let before = old(manager)@[h_session];
                &&& final(db)@ == all.view
                &&& final(manager)@.dom() == old(manager)@.dom()
                &&& forall|h: u64|
                    h != h_session && old(manager)@.contains_key(h) ==> final(manager)@[h] == old(manager)@[h]
                &&& final(manager)@[h_session].login_ctx == before.login_ctx
                &&& final(manager)@[h_session].sign_ctx == before.sign_ctx
                &&& if all.complete {
                    out == Status::Success && final(manager)@[h_session].pending() == Some(
                        all.handles,
                    )
                } else {
                    out == Status::GeneralError && final(manager)@[h_session].cursor
                        == before.cursor
                }
            },
        },
{
    let objects = match listing {
        Ok(objects) => objects,
        Err(err) => {
            return err.status();
        },
    };
    let ghost manager_before = manager@;
    let outcome = match manager.session_mut(h_session) {
        Some(session) => session.enum_init(db, filter, objects),
        None => {
            return Status::SessionHandleInvalid;
        },
    };
    proof {
        assert(manager@.dom() =~= manager_before.dom());
    }
    match outcome {
        Ok(()) => Status::Success,
        Err(err) => err.status(),
    }
}

/// Continues a search: returns at most `max_count` handles and moves the
/// cursor past them. Both places to write to must be there; then the session
/// must be known; then a search must be under way.
#[allow(non_snake_case)]
pub fn C_FindObjects(
    manager: &mut SessionManager,
    h_session: u64,
    has_object_buffer: bool,
    has_count_out: bool,
    max_count: usize,
) -> (out: Result<Vec<u64>, Status>)
    ensures
        final(manager).opened() == old(manager).opened(),
        if !has_object_buffer || !has_count_out {
            out == Err::<Vec<u64>, Status>(Status::ArgumentsBad) && final(manager)@ == old(manager)@
        } else if !old(manager)@.contains_key(h_session) {
            out == Err::<Vec<u64>, Status>(Status::SessionHandleInvalid) && final(manager)@
                == old(manager)@
        } else {
            let before = old(manager)@[h_session];
            &&& final(manager)@.dom() == old(manager)@.dom()
            &&& forall|h: u64|
                h != h_session && old(manager)@.contains_key(h) ==> final(manager)@[h] == old(manager)@[h]
            &&& final(manager)@[h_session].login_ctx == before.login_ctx
            &&& final(manager)@[h_session].sign_ctx == before.sign_ctx
            &&& match before.pending() {
                None => out == Err::<Vec<u64>, Status>(Status::GeneralError) && final(
                    manager
                )@[h_session].cursor is None,
                Some(cursor) => (out matches Ok(chunk) && chunk@ == chunk_of(
                    cursor,
                    max_count as nat,
                )) && final(manager)@[h_session].pending() == Some(
                    rest_of(cursor, max_count as nat),
                ),
            }
        },
{
    if !has_object_buffer || !has_count_out {
        return Err(Status::ArgumentsBad);
    }
    let ghost manager_before = manager@;
    let outcome = match manager.session_mut(h_session) {
        Some(session) => session.enum_next_chunk(max_count),
        None => {
            return Err(Status::SessionHandleInvalid);
        },
    };
    proof {
        assert(manager@.dom() =~= manager_before.dom());
    }
    match outcome {
        Ok(chunk) => Ok(chunk),
        Err(err) => Err(err.status()),
    }
}

/// Ends a search. Ending one that is not under way succeeds too.
#[allow(non_snake_case)]
pub fn C_FindObjectsFinal(manager: &mut SessionManager, h_session: u64) -> (out: Status)
    ensures
        final(manager).opened() == old(manager).opened(),
        if !old(manager)@.contains_key(h_session) {
            out == Status::SessionHandleInvalid && final(manager)@ == old(manager)@
        } else {
            let before = old(manager)@[h_session];
            &&& out == Status::Success
            &&& final(manager)@.dom() == old(manager)@.dom()
            &&& forall|h: u64|
                h != h_session && old(manager)@.contains_key(h) ==> final(manager)@[h] == old(manager)@[h]
            &&& final(manager)@[h_session].login_ctx == before.login_ctx
            &&& final(manager)@[h_session].sign_ctx == before.sign_ctx
            &&& final(manager)@[h_session].cursor is None
        },
{
    let ghost manager_before = manager@;
    match manager.session_mut(h_session) {
        Some(session) => {
            session.enum_final();
        },
        None => {
            return Status::SessionHandleInvalid;
        },
    }
    proof {
        assert(manager@.dom() =~= manager_before.dom());
    }
    Status::Success
}

/// Reads attributes of an object into the caller's template and returns the
/// template as it is to be written back. The array must be there and hold
/// `count` entries; then the session must be known; then the object.
#[allow(non_snake_case)]
pub fn C_GetAttributeValue(
    manager: &SessionManager,
    db: &Db,
    h_session: u64,
    h_object: u64,
    template: Option<Vec<Attribute>>,
    count: usize,
) -> (out: Result<Template, Status>)
    requires
        db.wf(),
    ensures
        match template {
            None => out == Err::<Template, Status>(Status::ArgumentsBad),
            Some(entries) => match declared(entries@, count) {
                None => out == Err::<Template, Status>(Status::ArgumentsBad),
                Some(content) => if !manager@.contains_key(h_session) {
                    out == Err::<Template, Status>(Status::SessionHandleInvalid)
                } else if !db@.objects.contains_key(h_object) {
                    out == Err::<Template, Status>(Status::ObjectHandleInvalid)
                } else {
                    out matches Ok(filled) && filled@ == template_filled(
                        content,
                        db@.objects[h_object].attrs@,
                    )
                },
            },
        },
{
    let entries = match template {
        Some(entries) => entries,
        None => {
            return Err(Status::ArgumentsBad);
        },
    };
    let mut template = match Template::parse(Some(entries), count) {
        Ok(template) => template,
        Err(err) => {
            return Err(err.status());
        },
    };
    if manager.get(h_session).is_none() {
        return Err(Status::SessionHandleInvalid);
    }
    let object = match db.get_object(h_object) {
        Some(object) => object,
        None => {
            return Err(Status::ObjectHandleInvalid);
        },
    };
    object.fill_attr_template(&mut template);
    Ok(template)
}

/// Reports the size of an object in bits, zero where it is not known. The
/// place to write to must be there; then the session must be known; then
/// the object.
#[allow(non_snake_case)]
pub fn C_GetObjectSize(
    manager: &SessionManager,
    db: &Db,
    h_session: u64,
    h_object: u64,
    has_size_out: bool,
) -> (out: Result<usize, Status>)
    requires
        db.wf(),
    ensures
        if !has_size_out {
            out == Err::<usize, Status>(Status::ArgumentsBad)
        } else if !manager@.contains_key(h_session) {
            out == Err::<usize, Status>(Status::SessionHandleInvalid)
        } else if !db@.objects.contains_key(h_object) {
            out == Err::<usize, Status>(Status::ObjectHandleInvalid)
        } else {
            out == Ok::<usize, Status>(reported_size(db@.objects[h_object]))
        },
{
    if !has_size_out {
        return Err(Status::ArgumentsBad);
    }
    if manager.get(h_session).is_none() {
        return Err(Status::SessionHandleInvalid);
    }
    let object = match db.get_object(h_object) {
        Some(object) => object,
        None => {
            return Err(Status::ObjectHandleInvalid);
        },
    };
    match object.size {
        Some(bits) => Ok(bits),
        None => Ok(0),
    }
}

/// Creates an object: what is settled before the HSM is asked. The array
/// and the place for the new handle must be there, and the array must hold
/// `count` entries; then the session must be known; then the template must
/// ask for an import. What comes back is what the HSM is to store.
#[allow(non_snake_case)]
pub fn C_CreateObject(
    manager: &SessionManager,
    h_session: u64,
    template: Option<Vec<Attribute>>,
    count: usize,
    has_handle_out: bool,
) -> (out: Result<KeyImport, Status>)
    ensures
        match template {
            None => out == Err::<KeyImport, Status>(Status::ArgumentsBad),
            Some(entries) => if !has_handle_out {
                out == Err::<KeyImport, Status>(Status::ArgumentsBad)
            } else {
                match declared(entries@, count) {
                    None => out == Err::<KeyImport, Status>(Status::ArgumentsBad),
                    Some(content) => if !manager@.contains_key(h_session) {
                        out == Err::<KeyImport, Status>(Status::SessionHandleInvalid)
                    } else {
                        match import_of(content) {
                            None => out == Err::<KeyImport, Status>(Status::ArgumentsBad),
                            Some(import) => out matches Ok(found) && found@ == import,
                        }
                    },
                }
            },
        },
{
    let entries = match template {
        Some(entries) => entries,
        None => {
            return Err(Status::ArgumentsBad);
        },
    };
    if !has_handle_out {
        return Err(Status::ArgumentsBad);
    }
    let request = match Template::parse(Some(entries), count) {
        Ok(request) => request,
        Err(err) => {
            return Err(err.status());
        },
    };
    if manager.get(h_session).is_none() {
        return Err(Status::SessionHandleInvalid);
    }
    match key_import(&request) {
        Ok(import) => Ok(import),
        Err(err) => Err(err.status()),
    }
}

/// Creates an object: what follows the HSM's answer. A failure of the
/// backend is reported as it is. Of the objects that the HSM reports as
/// created the first is put into the catalog, and its handle is returned;
/// it is a general error where the HSM reports none, or no handle is left.
pub fn complete_create_object(db: &mut Db, created: Result<Vec<Object>, Error>) -> (out: Result<
    u64,
    Status,
>)
    requires
        old(db).wf(),
    ensures
        final(db).wf(),
        match created {
            Err(err) => out == Err::<u64, Status>(err.status_of()) && final(db)@ == old(db)@,
            Ok(objects) => if objects@.len() == 0 {
                out == Err::<u64, Status>(Status::GeneralError) && final(db)@ == old(db)@
            } else {
                final(db)@ == old(db)@.add(objects@[0]) && match old(db)@.handle_for(objects@[0]) {
                    Some(handle) => out == Ok::<u64, Status>(handle),
                    None => out == Err::<u64, Status>(Status::GeneralError),
                }
            },
        },
{
    let mut objects = match created {
        Ok(objects) => objects,
        Err(err) => {
            return Err(err.status());
        },
    };
    if objects.len() == 0 {
        return Err(Status::GeneralError);
    }
    let first = objects.remove(0);
    match db.add_object(first) {
        Some(handle) => Ok(handle),
        None => Err(Status::GeneralError),
    }
}

/// Copying an object is never done.
#[allow(non_snake_case)]
pub fn C_CopyObject(h_session: u64, h_object: u64) -> (out: Status)
    ensures
        out == Status::ActionProhibited,
{
    Status::ActionProhibited
}

/// Destroys an object: what is settled before the HSM is asked. The session
/// must be known, then the object. What comes back is the identifier of the
/// key to delete on the HSM.
#[allow(non_snake_case)]
pub fn C_DestroyObject(manager: &SessionManager, db: &Db, h_session: u64, h_object: u64) -> (out:
    Result<String, Status>)
    requires
        db.wf(),
    ensures
        if !manager@.contains_key(h_session) {
            out == Err::<String, Status>(Status::SessionHandleInvalid)
        } else if !db@.objects.contains_key(h_object) {
            out == Err::<String, Status>(Status::ObjectHandleInvalid)
        } else {
            out matches Ok(id) && id@ == db@.objects[h_object].id@
        },
{
    if manager.get(h_session).is_none() {
        return Err(Status::SessionHandleInvalid);
    }
    match db.get_object(h_object) {
        Some(object) => Ok(object.id.clone()),
        None => Err(Status::ObjectHandleInvalid),
    }
}

/// Destroys an object: what follows the HSM's answer. A failure of the
/// backend is reported as it is and leaves the handle live. After a
/// deletion the handle is taken out of the catalog; a handle that is not in
/// it is reported as invalid.
pub fn complete_destroy_object(db: &mut Db, h_object: u64, deleted: Result<(), Error>) -> (out:
    Status)
    requires
        old(db).wf(),
    ensures
        final(db).wf(),
        match deleted {
            Err(err) => out == err.status_of() && final(db)@ == old(db)@,
            Ok(_) => final(db)@ == old(db)@.remove(h_object) && out == if old(
                db
            )@.objects.contains_key(h_object) {
                Status::Success
            } else {
                Status::ObjectHandleInvalid
            },
        },
{
    match deleted {
        Err(err) => err.status(),
        Ok(()) => match db.remove_object(h_object) {
            Some(_) => Status::Success,
            None => Status::ObjectHandleInvalid,
        },
    }
}

/// Changes attributes of an object. The array must be there and hold
/// `count` entries; then the session must be known; then the object. Of the
/// entries only the identifier is acted on: the alias that its bytes stand
/// for is made to name the object, the last such entry deciding.
#[allow(non_snake_case)]
pub fn C_SetAttributeValue(
    manager: &SessionManager,
    db: &Db,
    aliases: &mut AliasTable,
    h_session: u64,
    h_object: u64,
    template: Option<Vec<Attribute>>,
    count: usize,
) -> (out: Status)
    requires
        db.wf(),
        old(aliases).wf(),
    ensures
        final(aliases).wf(),
        match template {
            None => out == Status::ArgumentsBad && final(aliases)@ == old(aliases)@,
            Some(entries) => match declared(entries@, count) {
                None => out == Status::ArgumentsBad && final(aliases)@ == old(aliases)@,
                Some(content) => if !manager@.contains_key(h_session) {
                    out == Status::SessionHandleInvalid && final(aliases)@ == old(aliases)@
                } else if !db@.objects.contains_key(h_object) {
                    out == Status::ObjectHandleInvalid && final(aliases)@ == old(aliases)@
                } else {
                    out == Status::Success && final(aliases)@ == match supplied(content, CKA_ID) {
                        Some(bytes) => old(aliases)@.insert(
                            alias_of(bytes),
                            db@.objects[h_object].id@,
                        ),
                        None => old(aliases)@,
                    }
                },
            },
        },
{
    let entries = match template {
        Some(entries) => entries,
        None => {
            return Status::ArgumentsBad;
        },
    };
    let template = match Template::parse(Some(entries), count) {
        Ok(template) => template,
        Err(err) => {
            return err.status();
        },
    };
    if manager.get(h_session).is_none() {
        return Status::SessionHandleInvalid;
    }
    let object = match db.get_object(h_object) {
        Some(object) => object,
        None => {
            return Status::ObjectHandleInvalid;
        },
    };
    match template.new_id() {
        Some(bytes) => {
            let alias = alias_from_id(bytes);
            aliases.set(alias, object.id.clone());
        },
        None => {},
    }
    Status::Success
}

} // verus!

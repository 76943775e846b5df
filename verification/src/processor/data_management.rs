//! The data-management commands.
//!
//! Each command is decided here and carried out elsewhere: a function takes
//! what the command reads of its request and returns either the call to make
//! on the backend, with the step that follows a successful answer, or the
//! error that ends the command before the backend is called.

use vstd::prelude::*;
use vstd::string::*;
use crate::document::{convert_to_bool, ElementType, Entry, Field, FieldValue, Scalar};
use crate::error::{CommandError, CommandErrorView, ErrorCode};
use crate::text::{text_eq, views_of};

verus! {

/// What a command reads of its request, beside the backend's own view of it.
#[derive(Debug, PartialEq, Eq)]
pub struct RequestContext {
    /// The fields of the command document as far as they could be read, in
    /// order.
    pub fields: Vec<Field>,
    /// The error that ended the reading of the fields, where one did.
    pub unread: Option<CommandError>,
    /// The target database, or the error that resolving it raised.
    pub db: Result<String, CommandError>,
    /// The target collection, or the error that resolving it raised.
    pub collection: Result<String, CommandError>,
    /// The correlation id of the request.
    pub activity_id: String,
}

/// The factor by which sizes in statistics are divided.
#[derive(Clone, Copy, Debug, PartialEq, Eq, Structural)]
pub enum Scale {
    /// A binary64 number, as the 64 bits of its IEEE 754 form.
    Double(u64),
    /// A whole number, which the backend takes as the nearest binary64 number.
    Integer(i64),
}

/// The bits of the binary64 number 1.0, the scale where none is given.
pub const SCALE_ONE: u64 = 0x3FF0_0000_0000_0000;

/// The call that a command makes on the backend.
#[derive(Debug, Clone, PartialEq, Eq)]
pub enum BackendCall {
    Delete { is_read_only_for_disk_full: bool },
    Find,
    Insert {
        enable_write_procedures: bool,
        enable_write_procedures_with_batch_commit: bool,
        enable_backend_timeout: bool,
    },
    Aggregate,
    Update {
        enable_write_procedures: bool,
        enable_write_procedures_with_batch_commit: bool,
        enable_backend_timeout: bool,
    },
    ListDatabases,
    ListCollections,
    Validate,
    FindAndModify,
    Distinct,
    Count,
    CollStats { scale: Scale },
    DbStats { scale: Scale },
    CurrentOp,
    KillOp { operation_id: String },
    GetParameter { all: bool, show_details: bool, params: Vec<String> },
    Compact,
}

/// What is done with a successful answer of the backend before it is
/// returned.
#[derive(Clone, Copy, Debug, PartialEq, Eq, Structural)]
pub enum PostProcessing {
    /// The answer is returned as it is.
    Nothing,
    /// The failures of single operations in the answer are rewritten as the
    /// gateway's write errors, in their order, tagged with the request's
    /// correlation id.
    TransformWriteErrors,
    /// The cursor of the answer is saved under the request's continuation
    /// before the first batch is returned.
    SaveCursor,
}

/// A decided command: the call on the backend and the step after it.
#[derive(Debug, Clone, PartialEq, Eq)]
pub struct CommandPlan {
    pub call: BackendCall,
    pub after: PostProcessing,
}

/// Whether `r` is the error `e`.
pub open spec fn fails_with<T>(r: Result<T, CommandError>, e: CommandErrorView) -> bool {
    r matches Err(err) && err@ == e
}

/// The database that a request names, or the error of resolving it.
pub open spec fn database_of(request: RequestContext) -> Result<Seq<char>, CommandErrorView> {
    match request.db {
        Ok(db) => Ok(db@),
        Err(e) => Err(e@),
    }
}

/// The name of the database on which administrative commands run.
pub const ADMIN_DATABASE: &'static str = "admin";

/// The error that ended a reading, as characters.
pub open spec fn unread_of(unread: Option<CommandError>) -> Option<CommandErrorView> {
    match unread {
        Some(e) => Some(e@),
        None => None,
    }
}

/// The error for a command that may only run against the admin database.
pub open spec fn admin_only(message: Seq<char>) -> CommandErrorView {
    CommandErrorView { code: ErrorCode::Unauthorized, message }
}

/// The admin guard: the error that ends a command which may only run
/// against the admin database, before anything else of the request is looked
/// at. A database that does not resolve ends it with the resolver's error,
/// any database but the admin database with `Unauthorized` and the given
/// message; against the admin database there is none.
pub open spec fn admin_guard(request: RequestContext, message: Seq<char>) -> Option<
    CommandErrorView,
> {
    match database_of(request) {
        Err(e) => Some(e),
        Ok(db) => if db != ADMIN_DATABASE@ {
            Some(admin_only(message))
        } else {
            None
        },
    }
}

impl RequestContext {
    /// A request is well-formed where the value of each of its fields is.
    pub open spec fn well_formed(self) -> bool {
        forall|i: int| 0 <= i < self.fields.len() ==> (#[trigger] self.fields[i]).value.well_formed()
    }

    /// Whether the request is well-formed.
    pub fn is_well_formed(&self) -> (r: bool)
        ensures
            r == self.well_formed(),
    {
        let mut i: usize = 0;
        while i < self.fields.len()
            invariant
                0 <= i <= self.fields.len(),
                forall|j: int| 0 <= j < i ==> (#[trigger] self.fields[j]).value.well_formed(),
            decreases self.fields.len() - i,
        {
            if !self.fields[i].value.is_well_formed() {
                assert(!self.fields[i as int].value.well_formed());
                return false;
            }
            i = i + 1;
        }
        true
    }
}

fn check_admin(request: &RequestContext, message: &str) -> (r: Result<(), CommandError>)
    ensures
        match admin_guard(*request, message@) {
            Some(e) => fails_with(r, e),
            None => r is Ok,
        },
{
    match &request.db {
        Err(e) => Err(e.duplicate()),
        Ok(db) => {
            if !text_eq(db.as_str(), ADMIN_DATABASE) {
                Err(CommandError::documentdb_error(ErrorCode::Unauthorized, message.to_owned()))
            } else {
                Ok(())
            }
        },
    }
}

fn check_read(unread: &Option<CommandError>) -> (r: Result<(), CommandError>)
    ensures
        match unread_of(*unread) {
            Some(e) => fails_with(r, e),
            None => r is Ok,
        },
{
    match unread {
        Some(e) => Err(e.duplicate()),
        None => Ok(()),
    }
}

/// `delete`: no precondition; write errors are transformed.
pub fn process_delete(is_read_only_for_disk_full: bool) -> (plan: CommandPlan)
    ensures
        plan.call == (BackendCall::Delete { is_read_only_for_disk_full }),
        plan.after == PostProcessing::TransformWriteErrors,
{
    CommandPlan {
        call: BackendCall::Delete { is_read_only_for_disk_full },
        after: PostProcessing::TransformWriteErrors,
    }
}

/// `find`: no precondition; the cursor is saved.
pub fn process_find() -> (plan: CommandPlan)
    ensures
        plan.call == BackendCall::Find,
        plan.after == PostProcessing::SaveCursor,
{
    CommandPlan { call: BackendCall::Find, after: PostProcessing::SaveCursor }
}

/// `insert`: no precondition; write errors are transformed.
pub fn process_insert(
    enable_write_procedures: bool,
    enable_write_procedures_with_batch_commit: bool,
    enable_backend_timeout: bool,
) -> (plan: CommandPlan)
    ensures
        plan.call == (BackendCall::Insert {
            enable_write_procedures,
            enable_write_procedures_with_batch_commit,
            enable_backend_timeout,
        }),
        plan.after == PostProcessing::TransformWriteErrors,
{
    CommandPlan {
        call: BackendCall::Insert {
            enable_write_procedures,
            enable_write_procedures_with_batch_commit,
            enable_backend_timeout,
        },
        after: PostProcessing::TransformWriteErrors,
    }
}

/// `aggregate`: no precondition; the cursor is saved.
pub fn process_aggregate() -> (plan: CommandPlan)
    ensures
        plan.call == BackendCall::Aggregate,
        plan.after == PostProcessing::SaveCursor,
{
    CommandPlan { call: BackendCall::Aggregate, after: PostProcessing::SaveCursor }
}

/// `update`: no precondition; write errors are transformed.
pub fn process_update(
    enable_write_procedures: bool,
    enable_write_procedures_with_batch_commit: bool,
    enable_backend_timeout: bool,
) -> (plan: CommandPlan)
    ensures
        plan.call == (BackendCall::Update {
            enable_write_procedures,
            enable_write_procedures_with_batch_commit,
            enable_backend_timeout,
        }),
        plan.after == PostProcessing::TransformWriteErrors,
{
    CommandPlan {
        call: BackendCall::Update {
            enable_write_procedures,
            enable_write_procedures_with_batch_commit,
            enable_backend_timeout,
        },
        after: PostProcessing::TransformWriteErrors,
    }
}

/// `listDatabases`: no precondition, no step after.
pub fn process_list_databases() -> (plan: CommandPlan)
    ensures
        plan.call == BackendCall::ListDatabases,
        plan.after == PostProcessing::Nothing,
{
    CommandPlan { call: BackendCall::ListDatabases, after: PostProcessing::Nothing }
}

/// `listCollections`: no precondition; the cursor is saved.
pub fn process_list_collections() -> (plan: CommandPlan)
    ensures
        plan.call == BackendCall::ListCollections,
        plan.after == PostProcessing::SaveCursor,
{
    CommandPlan { call: BackendCall::ListCollections, after: PostProcessing::SaveCursor }
}

/// `validate`: no precondition, no step after.
pub fn process_validate() -> (plan: CommandPlan)
    ensures
        plan.call == BackendCall::Validate,
        plan.after == PostProcessing::Nothing,
{
    CommandPlan { call: BackendCall::Validate, after: PostProcessing::Nothing }
}

/// `findAndModify`: no precondition, no step after.
pub fn process_find_and_modify() -> (plan: CommandPlan)
    ensures
        plan.call == BackendCall::FindAndModify,
        plan.after == PostProcessing::Nothing,
{
    CommandPlan { call: BackendCall::FindAndModify, after: PostProcessing::Nothing }
}

/// `distinct`: no precondition, no step after.
pub fn process_distinct() -> (plan: CommandPlan)
    ensures
        plan.call == BackendCall::Distinct,
        plan.after == PostProcessing::Nothing,
{
    CommandPlan { call: BackendCall::Distinct, after: PostProcessing::Nothing }
}

/// `count`: the target collection must resolve; where it does not, the
/// command fails with the error of the resolver.
pub fn process_count(request: &RequestContext) -> (r: Result<CommandPlan, CommandError>)
    ensures
        match request.collection {
            Ok(_) => r matches Ok(plan) && plan.call == BackendCall::Count && plan.after
                == PostProcessing::Nothing,
            Err(e) => fails_with(r, e@),
        },
{
    match &request.collection {
        Ok(_) => Ok(CommandPlan { call: BackendCall::Count, after: PostProcessing::Nothing }),
        Err(e) => Err(e.duplicate()),
    }
}

/// The message of the error for a scale of the wrong kind.
pub open spec fn scale_type_message(kind: ElementType) -> Seq<char> {
    "Unexpected bson type for scale: "@ + kind.spec_name()
}

/// The scale that a value stands for: a number is itself, an undefined or
/// null value is one, and a value of any other kind is a type mismatch that
/// names the kind.
pub open spec fn scale_of(value: FieldValue) -> Result<Scale, CommandErrorView> {
    match value {
        FieldValue::Scalar(Scalar::Double(bits)) => Ok(Scale::Double(bits)),
        FieldValue::Scalar(Scalar::Int32(i)) => Ok(Scale::Integer(i as i64)),
        FieldValue::Scalar(Scalar::Int64(i)) => Ok(Scale::Integer(i)),
        FieldValue::Scalar(Scalar::Undefined) => Ok(Scale::Double(SCALE_ONE)),
        FieldValue::Scalar(Scalar::Null) => Ok(Scale::Double(SCALE_ONE)),
        _ => Err(
            CommandErrorView {
                code: ErrorCode::TypeMismatch,
                message: scale_type_message(value.kind()),
            },
        ),
    }
}

/// Of a well-formed value the kind decides the scale: undefined and null
/// stand for one, the three kinds of number for themselves, and every other
/// kind is a type mismatch that names the kind.
pub proof fn lemma_scale_by_kind(value: FieldValue)
    requires
        value.well_formed(),
    ensures
        value.kind() == ElementType::Undefined || value.kind() == ElementType::Null ==> scale_of(
            value,
        ) == Ok::<Scale, CommandErrorView>(Scale::Double(SCALE_ONE)),
        value.kind() == ElementType::Double || value.kind() == ElementType::Int32 || value.kind()
            == ElementType::Int64 ==> scale_of(value) is Ok,
        !(value.kind() == ElementType::Undefined || value.kind() == ElementType::Null
            || value.kind() == ElementType::Double || value.kind() == ElementType::Int32
            || value.kind() == ElementType::Int64) ==> scale_of(value) == Err::<
            Scale,
            CommandErrorView,
        >(
            CommandErrorView {
                code: ErrorCode::TypeMismatch,
                message: scale_type_message(value.kind()),
            },
        ),
{
}

/// Converts the value of a `scale` field to the scale it stands for.
pub fn convert_to_scale(scale: &FieldValue) -> (r: Result<Scale, CommandError>)
    requires
        scale.well_formed(),
    ensures
        match scale_of(*scale) {
            Ok(s) => r == Ok::<Scale, CommandError>(s),
            Err(e) => fails_with(r, e),
        },
{
    match scale {
        FieldValue::Scalar(Scalar::Double(bits)) => Ok(Scale::Double(*bits)),
        FieldValue::Scalar(Scalar::Int32(i)) => Ok(Scale::Integer(*i as i64)),
        FieldValue::Scalar(Scalar::Int64(i)) => Ok(Scale::Integer(*i)),
        FieldValue::Scalar(Scalar::Undefined) => Ok(Scale::Double(SCALE_ONE)),
        FieldValue::Scalar(Scalar::Null) => Ok(Scale::Double(SCALE_ONE)),
        _ => {
            let mut message = "Unexpected bson type for scale: ".to_owned();
            message.append(scale.element_type().name());
            Err(CommandError::documentdb_error(ErrorCode::TypeMismatch, message))
        },
    }
}

/// The index of the first field under `key`, or the number of fields where
/// there is none.
pub open spec fn first_field(fields: Seq<Field>, key: Seq<char>) -> int
    decreases fields.len(),
{
    if fields.len() == 0 || fields[0].key@ == key {
        0
    } else {
        1 + first_field(fields.skip(1), key)
    }
}

/// The scale that a request asks for: that of its first `scale` field, or
/// one where it has none. Where the fields could not be read up to a `scale`
/// field or to their end, the error of the reading comes instead.
pub open spec fn requested_scale(request: RequestContext) -> Result<Scale, CommandErrorView> {
    let at = first_field(request.fields@, "scale"@);
    if 0 <= at < request.fields.len() {
        scale_of(request.fields[at].value)
    } else {
        match unread_of(request.unread) {
            Some(e) => Err(e),
            None => Ok(Scale::Double(SCALE_ONE)),
        }
    }
}

proof fn lemma_first_field(fields: Seq<Field>, key: Seq<char>, k: int)
    requires
        0 <= k <= fields.len(),
        forall|j: int| 0 <= j < k ==> fields[j].key@ != key,
        k == fields.len() || fields[k].key@ == key,
    ensures
        first_field(fields, key) == k,
    decreases fields.len(),
{
    if fields.len() == 0 || fields[0].key@ == key {
    } else {
        let rest = fields.skip(1);
        assert forall|j: int| 0 <= j < k - 1 implies rest[j].key@ != key by {
            assert(rest[j] == fields[j + 1]);
        }
        lemma_first_field(rest, key, k - 1);
    }
}

fn scale_for(request: &RequestContext) -> (r: Result<Scale, CommandError>)
    requires
        request.well_formed(),
    ensures
        match requested_scale(*request) {
            Ok(s) => r == Ok::<Scale, CommandError>(s),
            Err(e) => fails_with(r, e),
        },
{
    let mut i: usize = 0;
    while i < request.fields.len()
        invariant
            request.well_formed(),
            0 <= i <= request.fields.len(),
            forall|j: int| 0 <= j < i ==> request.fields[j].key@ != "scale"@,
        decreases request.fields.len() - i,
    {
        if text_eq(request.fields[i].key.as_str(), "scale") {
            proof {
                lemma_first_field(request.fields@, "scale"@, i as int);
            }
            return convert_to_scale(&request.fields[i].value);
        }
        i = i + 1;
    }
    proof {
        lemma_first_field(request.fields@, "scale"@, request.fields.len() as int);
    }
    match check_read(&request.unread) {
        Ok(()) => Ok(Scale::Double(SCALE_ONE)),
        Err(e) => Err(e),
    }
}

/// `collStats`: a `scale` field, if present, must be a number, undefined or
/// null; without one the scale is one.
pub fn process_coll_stats(request: &RequestContext) -> (r: Result<CommandPlan, CommandError>)
    requires
        request.well_formed(),
    ensures
        match requested_scale(*request) {
            Ok(scale) => r matches Ok(plan) && plan.call == (BackendCall::CollStats { scale })
                && plan.after == PostProcessing::Nothing,
            Err(e) => fails_with(r, e),
        },
{
    match scale_for(request) {
        Ok(scale) => Ok(
            CommandPlan { call: BackendCall::CollStats { scale }, after: PostProcessing::Nothing },
        ),
        Err(e) => Err(e),
    }
}

/// `dbStats`: a `scale` field, if present, must be a number, undefined or
/// null; without one the scale is one.
pub fn process_db_stats(request: &RequestContext) -> (r: Result<CommandPlan, CommandError>)
    requires
        request.well_formed(),
    ensures
        match requested_scale(*request) {
            Ok(scale) => r matches Ok(plan) && plan.call == (BackendCall::DbStats { scale })
                && plan.after == PostProcessing::Nothing,
            Err(e) => fails_with(r, e),
        },
{
    match scale_for(request) {
        Ok(scale) => Ok(
            CommandPlan { call: BackendCall::DbStats { scale }, after: PostProcessing::Nothing },
        ),
        Err(e) => Err(e),
    }
}

/// `currentOp`: no precondition, no step after.
pub fn process_current_op() -> (plan: CommandPlan)
    ensures
        plan.call == BackendCall::CurrentOp,
        plan.after == PostProcessing::Nothing,
{
    CommandPlan { call: BackendCall::CurrentOp, after: PostProcessing::Nothing }
}

/// The kind of the first `op` field that is no string.
pub open spec fn first_bad_op(fields: Seq<Field>) -> Option<ElementType>
    decreases fields.len(),
{
    if fields.len() == 0 {
        None
    } else {
        match first_bad_op(fields.drop_last()) {
            Some(kind) => Some(kind),
            None => if fields.last().key@ == "op"@ && fields.last().value.text() is None {
                Some(fields.last().value.kind())
            } else {
                None
            },
        }
    }
}

/// The text of the last `op` field that is a string.
pub open spec fn last_op(fields: Seq<Field>) -> Option<Seq<char>>
    decreases fields.len(),
{
    if fields.len() == 0 {
        None
    } else if fields.last().key@ == "op"@ && fields.last().value.text() is Some {
        fields.last().value.text()
    } else {
        last_op(fields.drop_last())
    }
}

/// What `killOp` comes to: the id of the operation to kill, or the error
/// that ends the command. The admin guard comes first. Then the fields are
/// read in order: an `op` field that is no string is a type mismatch; fields
/// that could not be read to their end give the error of the reading; and
/// without an `op` field the value is bad. The last `op` field counts.
pub open spec fn kill_op_outcome(request: RequestContext) -> Result<Seq<char>, CommandErrorView> {
    match admin_guard(request, "killOp may only be run against the admin database."@) {
        Some(e) => Err(e),
        None => match first_bad_op(request.fields@) {
            Some(kind) => Err(
                CommandErrorView {
                    code: ErrorCode::TypeMismatch,
                    message: "Expected \"op\" field to be a string, but got "@ + kind.spec_name(),
                },
            ),
            None => match unread_of(request.unread) {
                Some(e) => Err(e),
                None => match last_op(request.fields@) {
                    None => Err(
                        CommandErrorView {
                            code: ErrorCode::BadValue,
                            message: "Did not provide \"op\" field"@,
                        },
                    ),
                    Some(id) => Ok(id),
                },
            },
        },
    }
}

/// `killOp`: must run against the admin database and name the operation in
/// a string field `op`. No step follows the backend's answer.
pub fn process_kill_op(request: &RequestContext) -> (r: Result<CommandPlan, CommandError>)
    requires
        request.well_formed(),
    ensures
        match kill_op_outcome(*request) {
            Ok(id) => r matches Ok(plan) && (plan.call matches BackendCall::KillOp { operation_id }
                && operation_id@ == id) && plan.after == PostProcessing::Nothing,
            Err(e) => fails_with(r, e),
        },
{
    match check_admin(request, "killOp may only be run against the admin database.") {
        Ok(()) => {},
        Err(e) => {
            return Err(e);
        },
    }
    let mut operation_id: Option<String> = None;
    let mut i: usize = 0;
    proof {
        assert(request.fields@.take(0) =~= Seq::<Field>::empty());
    }
    while i < request.fields.len()
        invariant
            admin_guard(*request, "killOp may only be run against the admin database."@) is None,
            0 <= i <= request.fields.len(),
            first_bad_op(request.fields@.take(i as int)) is None,
            crate::environment::text_of(operation_id) == last_op(request.fields@.take(i as int)),
        decreases request.fields.len() - i,
    {
        let ghost upto = request.fields@.take(i + 1);
        proof {
            assert(upto.drop_last() =~= request.fields@.take(i as int));
            assert(upto.last() == request.fields[i as int]);
        }
        let field = &request.fields[i];
        if text_eq(field.key.as_str(), "op") {
            match field.value.as_str() {
                Some(text) => {
                    operation_id = Some(text.to_owned());
                },
                None => {
                    proof {
                        lemma_first_bad_op_stays(request.fields@, i + 1);
                    }
                    let mut message = "Expected \"op\" field to be a string, but got ".to_owned();
                    message.append(field.value.element_type().name());
                    return Err(CommandError::type_mismatch(message));
                },
            }
        }
        i = i + 1;
    }
    proof {
        assert(request.fields@.take(request.fields.len() as int) =~= request.fields@);
    }
    match check_read(&request.unread) {
        Ok(()) => {},
        Err(e) => {
            return Err(e);
        },
    }
    let op_id = match operation_id {
        Some(id) => id,
        None => {
            return Err(CommandError::bad_value("Did not provide \"op\" field".to_owned()));
        },
    };
    Ok(CommandPlan { call: BackendCall::KillOp { operation_id: op_id }, after: PostProcessing::Nothing })
}

/// An `op` field of the wrong kind among the first fields is one among all.
proof fn lemma_first_bad_op_stays(fields: Seq<Field>, k: int)
    requires
        0 <= k <= fields.len(),
    ensures
        first_bad_op(fields.take(k)) is Some ==> first_bad_op(fields) == first_bad_op(
            fields.take(k),
        ),
    decreases fields.len() - k,
{
    if k < fields.len() {
        lemma_first_bad_op_stays(fields, k + 1);
        assert(fields.take(k + 1).drop_last() =~= fields.take(k));
    } else {
        assert(fields.take(k) =~= fields);
    }
}

/// What `getParameter` has gathered from the fields it has read.
pub struct ParameterSelection {
    pub all_parameters: bool,
    pub show_details: bool,
    pub star: bool,
    pub params: Seq<Seq<char>>,
}

/// The type mismatch for an option that is no truth value.
pub open spec fn option_mismatch(message: Seq<char>) -> CommandErrorView {
    CommandErrorView { code: ErrorCode::TypeMismatch, message }
}

/// Reads one entry of the options document: `allParameters` and
/// `showDetails` must be truth values and are taken over; any other entry is
/// passed over.
pub open spec fn option_step(selection: ParameterSelection, entry: Entry) -> Result<
    ParameterSelection,
    CommandErrorView,
> {
    if entry.key@ == "allParameters"@ {
        match entry.value.truth() {
            Some(b) => Ok(ParameterSelection { all_parameters: b, ..selection }),
            None => Err(option_mismatch("allParameters should be a bool"@)),
        }
    } else if entry.key@ == "showDetails"@ {
        match entry.value.truth() {
            Some(b) => Ok(ParameterSelection { show_details: b, ..selection }),
            None => Err(option_mismatch("showDetails should be convertible to a bool"@)),
        }
    } else {
        Ok(selection)
    }
}

/// Reads the entries of the options document in order, up to the first error.
pub open spec fn options_scan(selection: ParameterSelection, entries: Seq<Entry>) -> Result<
    ParameterSelection,
    CommandErrorView,
>
    decreases entries.len(),
{
    if entries.len() == 0 {
        Ok(selection)
    } else {
        match options_scan(selection, entries.drop_last()) {
            Ok(s) => option_step(s, entries.last()),
            Err(e) => Err(e),
        }
    }
}

/// Reads one field of the command. Under `getParameter` the string `*` asks
/// for everything, a document gives options, and any other value says
/// nothing; a document that could not be read to its end gives the error of
/// the reading, after the entries that were read. The key of any other field
/// is the name of a requested parameter.
pub open spec fn field_step(selection: ParameterSelection, field: Field) -> Result<
    ParameterSelection,
    CommandErrorView,
> {
    if field.key@ == "getParameter"@ {
        match field.value {
            FieldValue::Scalar(Scalar::String(s)) => if s@ == "*"@ {
                Ok(ParameterSelection { star: true, ..selection })
            } else {
                Ok(selection)
            },
            FieldValue::Document { entries, unread } => match options_scan(selection, entries@) {
                Ok(s) => match unread_of(unread) {
                    Some(e) => Err(e),
                    None => Ok(s),
                },
                Err(e) => Err(e),
            },
            _ => Ok(selection),
        }
    } else {
        Ok(ParameterSelection { params: selection.params.push(field.key@), ..selection })
    }
}

/// Reads the fields of the command in order, up to the first error.
pub open spec fn fields_scan(fields: Seq<Field>) -> Result<ParameterSelection, CommandErrorView>
    decreases fields.len(),
{
    if fields.len() == 0 {
        Ok(
            ParameterSelection {
                all_parameters: false,
                show_details: false,
                star: false,
                params: Seq::<Seq<char>>::empty(),
            },
        )
    } else {
        match fields_scan(fields.drop_last()) {
            Ok(s) => field_step(s, fields.last()),
            Err(e) => Err(e),
        }
    }
}

/// What is asked of the backend for parameters.
pub struct ParameterRequest {
    pub all: bool,
    pub show_details: bool,
    pub params: Seq<Seq<char>>,
}

/// What `getParameter` comes to. The admin guard comes first. Then the
/// fields are read in order, up to the first error; fields that could not be
/// read to their end give the error of the reading. The wildcard asks for all
/// parameters without details and without names; otherwise the options and
/// the names that were read are passed on.
pub open spec fn get_parameter_outcome(request: RequestContext) -> Result<
    ParameterRequest,
    CommandErrorView,
> {
    match admin_guard(request, "getParameter may only be run against the admin database."@) {
        Some(e) => Err(e),
        None => match fields_scan(request.fields@) {
            Err(e) => Err(e),
            Ok(selection) => match unread_of(request.unread) {
                Some(e) => Err(e),
                None => if selection.star {
                    Ok(
                        ParameterRequest {
                            all: true,
                            show_details: false,
                            params: Seq::<Seq<char>>::empty(),
                        },
                    )
                } else {
                    Ok(
                        ParameterRequest {
                            all: selection.all_parameters,
                            show_details: selection.show_details,
                            params: selection.params,
                        },
                    )
                },
            },
        },
    }
}

/// Whether `call` asks the backend for parameters as `wanted` says.
pub open spec fn asks_parameters(call: BackendCall, wanted: ParameterRequest) -> bool {
    call matches BackendCall::GetParameter { all, show_details, params } && all == wanted.all
        && show_details == wanted.show_details && views_of(params@) == wanted.params
}

fn get_parameter(all: bool, show_details: bool, params: Vec<String>) -> (plan: CommandPlan)
    ensures
        asks_parameters(
            plan.call,
            ParameterRequest { all, show_details, params: views_of(params@) },
        ),
        plan.after == PostProcessing::Nothing,
{
    CommandPlan {
        call: BackendCall::GetParameter { all, show_details, params },
        after: PostProcessing::Nothing,
    }
}

fn read_options(entries: &Vec<Entry>, all_parameters: &mut bool, show_details: &mut bool) -> (r:
    Result<(), CommandError>)
    requires
        forall|i: int| 0 <= i < entries.len() ==> (#[trigger] entries[i]).value.well_formed(),
    ensures
        match options_scan(
            ParameterSelection {
                all_parameters: *old(all_parameters),
                show_details: *old(show_details),
                star: false,
                params: Seq::<Seq<char>>::empty(),
            },
            entries@,
        ) {
            Ok(s) => r is Ok && *final(all_parameters) == s.all_parameters && *final(show_details)
                == s.show_details,
            Err(e) => fails_with(r, e),
        },
{
    let ghost start = ParameterSelection {
        all_parameters: *all_parameters,
        show_details: *show_details,
        star: false,
        params: Seq::<Seq<char>>::empty(),
    };
    let mut i: usize = 0;
    proof {
        assert(entries@.take(0) =~= Seq::<Entry>::empty());
    }
    while i < entries.len()
        invariant
            forall|i: int| 0 <= i < entries.len() ==> (#[trigger] entries[i]).value.well_formed(),
            0 <= i <= entries.len(),
            start == (ParameterSelection {
                all_parameters: *old(all_parameters),
                show_details: *old(show_details),
                star: false,
                params: Seq::<Seq<char>>::empty(),
            }),
            options_scan(start, entries@.take(i as int)) == Ok::<
                ParameterSelection,
                CommandErrorView,
            >(
                ParameterSelection {
                    all_parameters: *all_parameters,
                    show_details: *show_details,
                    star: false,
                    params: Seq::<Seq<char>>::empty(),
                },
            ),
        decreases entries.len() - i,
    {
        let ghost upto = entries@.take(i + 1);
        proof {
            assert(upto.drop_last() =~= entries@.take(i as int));
            assert(upto.last() == entries[i as int]);
            lemma_options_error_stays(start, entries@, i + 1);
        }
        let entry = &entries[i];
        if text_eq(entry.key.as_str(), "allParameters") {
            match convert_to_bool(&entry.value) {
                Some(b) => {
                    *all_parameters = b;
                },
                None => {
                    return Err(
                        CommandError::type_mismatch("allParameters should be a bool".to_owned()),
                    );
                },
            }
        } else if text_eq(entry.key.as_str(), "showDetails") {
            match convert_to_bool(&entry.value) {
                Some(b) => {
                    *show_details = b;
                },
                None => {
                    return Err(
                        CommandError::type_mismatch(
                            "showDetails should be convertible to a bool".to_owned(),
                        ),
                    );
                },
            }
        }
        i = i + 1;
    }
    proof {
        assert(entries@.take(entries.len() as int) =~= entries@);
    }
    Ok(())
}

/// An error among the first entries is the error of all.
proof fn lemma_options_error_stays(start: ParameterSelection, entries: Seq<Entry>, k: int)
    requires
        0 <= k <= entries.len(),
    ensures
        options_scan(start, entries.take(k)) is Err ==> options_scan(start, entries)
            == options_scan(start, entries.take(k)),
    decreases entries.len() - k,
{
    if k < entries.len() {
        lemma_options_error_stays(start, entries, k + 1);
        assert(entries.take(k + 1).drop_last() =~= entries.take(k));
    } else {
        assert(entries.take(k) =~= entries);
    }
}

/// An error among the first fields is the error of all.
proof fn lemma_fields_error_stays(fields: Seq<Field>, k: int)
    requires
        0 <= k <= fields.len(),
    ensures
        fields_scan(fields.take(k)) is Err ==> fields_scan(fields) == fields_scan(fields.take(k)),
    decreases fields.len() - k,
{
    if k < fields.len() {
        lemma_fields_error_stays(fields, k + 1);
        assert(fields.take(k + 1).drop_last() =~= fields.take(k));
    } else {
        assert(fields.take(k) =~= fields);
    }
}

/// The options do not touch the wildcard or the names.
proof fn lemma_options_keep(selection: ParameterSelection, entries: Seq<Entry>)
    ensures
        options_scan(selection, entries) matches Ok(s) ==> s.star == selection.star && s.params
            == selection.params,
        options_scan(selection, entries) matches Ok(s) ==> (options_scan(
            ParameterSelection { star: false, params: Seq::<Seq<char>>::empty(), ..selection },
            entries,
        ) matches Ok(t) && t.all_parameters == s.all_parameters && t.show_details
            == s.show_details),
        options_scan(selection, entries) matches Err(e) ==> options_scan(
            ParameterSelection { star: false, params: Seq::<Seq<char>>::empty(), ..selection },
            entries,
        ) == Err::<ParameterSelection, CommandErrorView>(e),
    decreases entries.len(),
{
    if entries.len() > 0 {
        lemma_options_keep(selection, entries.drop_last());
    }
}

/// `getParameter`: must run against the admin database. The value `*`
/// asks for all parameters without details; an options document selects
/// `allParameters` and `showDetails`; the key of every other field names a
/// requested parameter. No step follows the backend's answer.
pub fn process_get_parameter(request: &RequestContext) -> (r: Result<CommandPlan, CommandError>)
    requires
        request.well_formed(),
    ensures
        match get_parameter_outcome(*request) {
            Ok(wanted) => r matches Ok(plan) && asks_parameters(plan.call, wanted) && plan.after
                == PostProcessing::Nothing,
            Err(e) => fails_with(r, e),
        },
{
    match check_admin(request, "getParameter may only be run against the admin database.") {
        Ok(()) => {},
        Err(e) => {
            return Err(e);
        },
    }
    let mut all_parameters = false;
    let mut show_details = false;
    let mut star = false;
    let mut params: Vec<String> = Vec::new();
    let mut i: usize = 0;
    proof {
        assert(request.fields@.take(0) =~= Seq::<Field>::empty());
        assert(views_of(params@) =~= Seq::<Seq<char>>::empty());
    }
    while i < request.fields.len()
        invariant
            request.well_formed(),
            admin_guard(
                *request,
                "getParameter may only be run against the admin database."@,
            ) is None,
            0 <= i <= request.fields.len(),
            fields_scan(request.fields@.take(i as int)) == Ok::<
                ParameterSelection,
                CommandErrorView,
            >(
                ParameterSelection {
                    all_parameters,
                    show_details,
                    star,
                    params: views_of(params@),
                },
            ),
        decreases request.fields.len() - i,
    {
        let ghost upto = request.fields@.take(i + 1);
        let ghost before = ParameterSelection {
            all_parameters,
            show_details,
            star,
            params: views_of(params@),
        };
        proof {
            assert(upto.drop_last() =~= request.fields@.take(i as int));
            assert(upto.last() == request.fields[i as int]);
            lemma_fields_error_stays(request.fields@, i + 1);
        }
        let field = &request.fields[i];
        if text_eq(field.key.as_str(), "getParameter") {
            match &field.value {
                FieldValue::Scalar(Scalar::String(s)) => {
                    if text_eq(s.as_str(), "*") {
                        star = true;
                    }
                },
                FieldValue::Document { entries, unread } => {
                    proof {
                        lemma_options_keep(before, entries@);
                    }
                    match read_options(entries, &mut all_parameters, &mut show_details) {
                        Ok(()) => {},
                        Err(e) => {
                            return Err(e);
                        },
                    }
                    match check_read(unread) {
                        Ok(()) => {},
                        Err(e) => {
                            return Err(e);
                        },
                    }
                },
                _ => {},
            }
        } else {
            let ghost names = views_of(params@);
            params.push(field.key.clone());
            proof {
                assert(views_of(params@) =~= names.push(field.key@));
            }
        }
        i = i + 1;
    }
    proof {
        assert(request.fields@.take(request.fields.len() as int) =~= request.fields@);
    }
    match check_read(&request.unread) {
        Ok(()) => {},
        Err(e) => {
            return Err(e);
        },
    }
    if star {
        let none: Vec<String> = Vec::new();
        proof {
            assert(views_of(none@) =~= Seq::<Seq<char>>::empty());
        }
        return Ok(get_parameter(true, false, none));
    }
    Ok(get_parameter(all_parameters, show_details, params))
}

/// `compact`: no precondition, no step after.
pub fn process_compact() -> (plan: CommandPlan)
    ensures
        plan.call == BackendCall::Compact,
        plan.after == PostProcessing::Nothing,
{
    CommandPlan { call: BackendCall::Compact, after: PostProcessing::Nothing }
}

/// The admin guard. Against every database but the admin database `killOp`
/// and `getParameter` are unauthorized, whatever the fields of the command
/// hold. Against the admin database they go on to the backend where the
/// fields are in order: for `killOp` an `op` field that is a string and none
/// that is not, for `getParameter` options that are truth values.
pub proof fn lemma_admin_guard(request: RequestContext)
    ensures
        database_of(request) matches Ok(db) && db != ADMIN_DATABASE@ ==> {
            &&& kill_op_outcome(request) == Err::<Seq<char>, CommandErrorView>(
                admin_only("killOp may only be run against the admin database."@),
            )
            &&& get_parameter_outcome(request) == Err::<ParameterRequest, CommandErrorView>(
                admin_only("getParameter may only be run against the admin database."@),
            )
        },
        database_of(request) == Ok::<Seq<char>, CommandErrorView>(ADMIN_DATABASE@)
            && request.unread is None && first_bad_op(request.fields@) is None && last_op(
            request.fields@,
        ) is Some ==> kill_op_outcome(request) == Ok::<Seq<char>, CommandErrorView>(
            last_op(request.fields@)->0,
        ),
        database_of(request) == Ok::<Seq<char>, CommandErrorView>(ADMIN_DATABASE@)
            && request.unread is None && fields_scan(request.fields@) is Ok
            ==> get_parameter_outcome(request) is Ok,
{
}

} // verus!

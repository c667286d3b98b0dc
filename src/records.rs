//! The static records of tasks, resources and async operations, the field
//! values attached to them, and the callsite descriptions they refer to.
use vstd::prelude::*;
use crate::id_data::ToProto;

verus! {

/// The name of a field: a string, or an index into its callsite's field list.
#[derive(Clone, Debug)]
pub enum FieldName {
    Str(String),
    Index(u64),
}

/// A typed field value.
#[derive(Clone, Debug)]
pub enum FieldValue {
    Bool(bool),
    Str(String),
    Debug(String),
    U64(u64),
    I64(i64),
}

/// A named field value recorded at a callsite.
#[derive(Clone, Debug)]
pub struct Field {
    pub name: FieldName,
    pub value: Option<FieldValue>,
    /// The id of the callsite metadata that declares the field.
    pub meta_id: u64,
}

/// The kind of a resource: a known kind by number, or a free-form name.
#[derive(Clone, Debug)]
pub enum ResourceKind {
    Known(i32),
    Other(String),
}

#[derive(Clone, Copy, Debug, PartialEq, Eq)]
pub enum Level {
    Trace,
    Debug,
    Info,
    Warn,
    Error,
}

/// A description of a callsite, registered once.
#[derive(Clone, Debug)]
pub struct Metadata {
    pub id: u64,
    pub name: String,
    pub target: String,
    pub level: Level,
    pub is_span: bool,
    pub file: Option<String>,
    pub line: Option<u32>,
    pub field_names: Vec<String>,
}

/// Static data of a spawned task.
#[derive(Clone, Debug)]
pub struct Task {
    pub id: u64,
    /// The id of the task's callsite metadata.
    pub metadata: u64,
    pub fields: Vec<Field>,
}

/// Static data of a resource.
#[derive(Clone, Debug)]
pub struct Resource {
    pub id: u64,
    pub metadata: u64,
    pub concrete_type: String,
    pub kind: ResourceKind,
}

/// Static data of an async operation on a resource.
#[derive(Clone, Debug)]
pub struct AsyncOp {
    pub id: u64,
    pub metadata: u64,
    /// The name of the operation on its resource.
    pub source: String,
}

#[derive(Clone, Copy, Debug, PartialEq, Eq)]
pub enum Readiness {
    Ready,
    Pending,
}

/// One poll of an async operation on a resource, from a task.
#[derive(Clone, Debug)]
pub struct PollOp {
    pub metadata: u64,
    pub resource_id: u64,
    pub name: String,
    pub task_id: u64,
    pub async_op_id: u64,
    pub readiness: Readiness,
}

impl View for Metadata {
    type V = (u64, String, String, Level, bool, Option<String>, Option<u32>, Seq<String>);

    open spec fn view(&self) -> Self::V {
        (
            self.id,
            self.name,
            self.target,
            self.level,
            self.is_span,
            self.file,
            self.line,
            self.field_names@,
        )
    }
}

impl View for Task {
    type V = (u64, u64, Seq<Field>);

    open spec fn view(&self) -> Self::V {
        (self.id, self.metadata, self.fields@)
    }
}

impl View for Resource {
    type V = Resource;

    open spec fn view(&self) -> Resource {
        *self
    }
}

impl View for AsyncOp {
    type V = AsyncOp;

    open spec fn view(&self) -> AsyncOp {
        *self
    }
}

pub fn duplicate_opt_string(s: &Option<String>) -> (r: Option<String>)
    ensures
        r == *s,
{
    match s {
        Some(s) => Some(s.clone()),
        None => None,
    }
}

pub fn duplicate_strings(v: &Vec<String>) -> (r: Vec<String>)
    ensures
        r@ == v@,
{
    let mut r: Vec<String> = Vec::new();
    let mut i: usize = 0;
    while i < v.len()
        invariant
            i <= v.len(),
            r@ == v@.subrange(0, i as int),
        decreases v.len() - i,
    {
        r.push(v[i].clone());
        i = i + 1;
    }
    assert(r@ =~= v@);
    r
}

impl FieldName {
    pub fn duplicate(&self) -> (r: FieldName)
        ensures
            r == *self,
    {
        match self {
            FieldName::Str(s) => FieldName::Str(s.clone()),
            FieldName::Index(i) => FieldName::Index(*i),
        }
    }

    /// Two names are the same when both are the same string or the same index.
    pub open spec fn same_name(self, other: FieldName) -> bool {
        match (self, other) {
            (FieldName::Str(a), FieldName::Str(b)) => a@ == b@,
            (FieldName::Index(a), FieldName::Index(b)) => a == b,
            _ => false,
        }
    }

    pub fn same_as(&self, other: &FieldName) -> (r: bool)
        ensures
            r == self.same_name(*other),
    {
        match (self, other) {
            (FieldName::Str(a), FieldName::Str(b)) => a.eq(b),
            (FieldName::Index(a), FieldName::Index(b)) => *a == *b,
            _ => false,
        }
    }
}

impl FieldValue {
    pub fn duplicate(&self) -> (r: FieldValue)
        ensures
            r == *self,
    {
        match self {
            FieldValue::Bool(b) => FieldValue::Bool(*b),
            FieldValue::Str(s) => FieldValue::Str(s.clone()),
            FieldValue::Debug(s) => FieldValue::Debug(s.clone()),
            FieldValue::U64(v) => FieldValue::U64(*v),
            FieldValue::I64(v) => FieldValue::I64(*v),
        }
    }
}

impl Field {
    pub fn duplicate(&self) -> (r: Field)
        ensures
            r == *self,
    {
        Field {
            name: self.name.duplicate(),
            value: match &self.value {
                Some(v) => Some(v.duplicate()),
                None => None,
            },
            meta_id: self.meta_id,
        }
    }
}

pub fn duplicate_fields(v: &Vec<Field>) -> (r: Vec<Field>)
    ensures
        r@ == v@,
{
    let mut r: Vec<Field> = Vec::new();
    let mut i: usize = 0;
    while i < v.len()
        invariant
            i <= v.len(),
            r@ == v@.subrange(0, i as int),
        decreases v.len() - i,
    {
        r.push(v[i].duplicate());
        i = i + 1;
    }
    assert(r@ =~= v@);
    r
}

impl Metadata {
    pub fn duplicate(&self) -> (r: Metadata)
        ensures
            r@ == self@,
    {
        Metadata {
            id: self.id,
            name: self.name.clone(),
            target: self.target.clone(),
            level: self.level,
            is_span: self.is_span,
            file: duplicate_opt_string(&self.file),
            line: self.line,
            field_names: duplicate_strings(&self.field_names),
        }
    }
}

impl ResourceKind {
    pub fn duplicate(&self) -> (r: ResourceKind)
        ensures
            r == *self,
    {
        match self {
            ResourceKind::Known(k) => ResourceKind::Known(*k),
            ResourceKind::Other(s) => ResourceKind::Other(s.clone()),
        }
    }
}

impl PollOp {
    pub fn duplicate(&self) -> (r: PollOp)
        ensures
            r == *self,
    {
        PollOp {
            metadata: self.metadata,
            resource_id: self.resource_id,
            name: self.name.clone(),
            task_id: self.task_id,
            async_op_id: self.async_op_id,
            readiness: self.readiness,
        }
    }
}

impl ToProto for Task {
    type Output = Task;

    open spec fn proto_view(&self) -> (u64, u64, Seq<Field>) {
        self@
    }

    fn to_proto(&self) -> (r: Task) {
        Task { id: self.id, metadata: self.metadata, fields: duplicate_fields(&self.fields) }
    }
}

impl ToProto for Resource {
    type Output = Resource;

    open spec fn proto_view(&self) -> Resource {
        *self
    }

    fn to_proto(&self) -> (r: Resource) {
        Resource {
            id: self.id,
            metadata: self.metadata,
            concrete_type: self.concrete_type.clone(),
            kind: self.kind.duplicate(),
        }
    }
}

impl ToProto for AsyncOp {
    type Output = AsyncOp;

    open spec fn proto_view(&self) -> AsyncOp {
        *self
    }

    fn to_proto(&self) -> (r: AsyncOp) {
        AsyncOp { id: self.id, metadata: self.metadata, source: self.source.clone() }
    }
}

pub open spec fn meta_views(v: Seq<Metadata>) -> Seq<<Metadata as View>::V> {
    v.map_values(|m: Metadata| m@)
}

pub fn duplicate_metadata_list(v: &Vec<Metadata>) -> (r: Vec<Metadata>)
    ensures
        meta_views(r@) == meta_views(v@),
{
    let mut r: Vec<Metadata> = Vec::new();
    let mut i: usize = 0;
    while i < v.len()
        invariant
            i <= v.len(),
            meta_views(r@) == meta_views(v@.subrange(0, i as int)),
        decreases v.len() - i,
    {
        let m = v[i].duplicate();
        proof {
            assert(meta_views(r@.push(m)) =~= meta_views(r@).push(m@));
            assert(meta_views(v@.subrange(0, i + 1)) =~= meta_views(v@.subrange(0, i as int)).push(v@[i as int]@));
        }
        r.push(m);
        i = i + 1;
    }
    assert(v@.subrange(0, i as int) =~= v@);
    r
}

pub fn duplicate_poll_ops(v: &Vec<PollOp>) -> (r: Vec<PollOp>)
    ensures
        r@ == v@,
{
    let mut r: Vec<PollOp> = Vec::new();
    let mut i: usize = 0;
    while i < v.len()
        invariant
            i <= v.len(),
            r@ == v@.subrange(0, i as int),
        decreases v.len() - i,
    {
        r.push(v[i].duplicate());
        i = i + 1;
    }
    assert(r@ =~= v@);
    r
}

} // verus!

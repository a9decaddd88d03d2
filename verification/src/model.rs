//! The description of a record type from which SQL is generated.

use crate::dialect::DbType;
use crate::error::ModelError;
use crate::naming::{snake_case, table_name};
use crate::text::text_of;
use vstd::prelude::*;
use vstd::string::*;

verus! {

/// One declared field of a record type.
#[derive(Debug)]
pub struct FieldDescriptor {
    /// The field's name, which is also the name of its column.
    pub name: String,
    /// The field's value type, as written in the declaration.
    pub ty: String,
    /// Whether the field is annotated as the identity column.
    pub is_id_candidate: bool,
}

/// What a `FieldDescriptor` holds, as mathematical values.
pub struct FieldView {
    pub name: Seq<char>,
    pub ty: Seq<char>,
    pub is_id_candidate: bool,
}

impl View for FieldDescriptor {
    type V = FieldView;

    open spec fn view(&self) -> FieldView {
        FieldView { name: self.name@, ty: self.ty@, is_id_candidate: self.is_id_candidate }
    }
}

impl FieldDescriptor {
    /// Describes a field by its name, its type and whether it carries the
    /// identity annotation.
    pub fn new(name: &str, ty: &str, is_id_candidate: bool) -> (field: FieldDescriptor)
        ensures
            field@ == (FieldView { name: name@, ty: ty@, is_id_candidate }),
    {
        FieldDescriptor { name: String::from_str(name), ty: String::from_str(ty), is_id_candidate }
    }
}

impl Clone for FieldDescriptor {
    fn clone(&self) -> (copy: FieldDescriptor)
        ensures
            copy@ == self@,
    {
        FieldDescriptor {
            name: self.name.clone(),
            ty: self.ty.clone(),
            is_id_candidate: self.is_id_candidate,
        }
    }
}

/// The views of a list of fields, in the same order.
pub open spec fn field_views(fields: Seq<FieldDescriptor>) -> Seq<FieldView> {
    Seq::new(fields.len(), |i: int| fields[i]@)
}

/// The position of the last field that carries the identity annotation.
pub open spec fn last_id_candidate(fields: Seq<FieldView>) -> Option<int>
    decreases fields.len(),
{
    if fields.len() == 0 {
        None
    } else if fields.last().is_id_candidate {
        Some(fields.len() - 1)
    } else {
        last_id_candidate(fields.drop_last())
    }
}

/// The position of the identity field: the annotated one, or the first
/// declared field when there is no annotation.
pub open spec fn resolved_id(explicit: Option<int>) -> int {
    match explicit {
        Some(position) => position,
        None => 0,
    }
}

/// `last_id_candidate` finds an annotated field exactly when there is one,
/// and then no field after it is annotated.
pub proof fn lemma_last_id_candidate(fields: Seq<FieldView>)
    ensures
        match last_id_candidate(fields) {
            Some(p) => {
                &&& 0 <= p < fields.len()
                &&& fields[p].is_id_candidate
                &&& forall|j: int| p < j < fields.len() ==> !fields[j].is_id_candidate
            },
            None => forall|j: int| 0 <= j < fields.len() ==> !fields[j].is_id_candidate,
        },
    decreases fields.len(),
{
    if fields.len() > 0 && !fields.last().is_id_candidate {
        let front = fields.drop_last();
        lemma_last_id_candidate(front);
        assert(forall|j: int| 0 <= j < front.len() ==> front[j] == fields[j]);
    }
}

/// Finds the identity annotation among the fields. Where several fields
/// carry it, the last one counts.
pub fn last_id_annotation(fields: &Vec<FieldDescriptor>) -> (found: Option<usize>)
    ensures
        match found {
            Some(p) => last_id_candidate(field_views(fields@)) == Some(p as int),
            None => last_id_candidate(field_views(fields@)) is None,
        },
{
    let ghost views = field_views(fields@);
    let mut found: Option<usize> = None;
    let mut i: usize = 0;
    while i < fields.len()
        invariant
            i <= fields.len(),
            views == field_views(fields@),
            match found {
                Some(p) => last_id_candidate(views.take(i as int)) == Some(p as int),
                None => last_id_candidate(views.take(i as int)) is None,
            },
        decreases fields.len() - i,
    {
        proof {
            let next = views.take(i + 1);
            assert(next.drop_last() =~= views.take(i as int));
            assert(next.last() == fields[i as int]@);
        }
        if fields[i].is_id_candidate {
            found = Some(i);
        }
        i += 1;
    }
    proof {
        assert(views.take(i as int) =~= views);
    }
    found
}

/// Resolves the identity field of a record: the explicitly annotated field
/// if there is one, otherwise the first declared field. Returns the field's
/// position.
pub fn resolve_id_field(fields: &Vec<FieldDescriptor>, explicit: Option<usize>) -> (position: usize)
    requires
        fields.len() > 0,
        explicit matches Some(p) ==> p < fields.len(),
    ensures
        position < fields.len(),
        position == match explicit {
            Some(p) => p,
            None => 0usize,
        },
{
    match explicit {
        Some(p) => p,
        None => 0,
    }
}

/// Whether identity values are supplied by the caller, as an optional
/// textual flag says it: only the text `true` switches it on. A missing
/// flag, `false`, and any text that is no boolean all leave it off.
pub open spec fn external_id_of(flag: Option<Seq<char>>) -> bool {
    flag == Some("true"@)
}

/// Reads the optional external-id flag.
pub fn parse_external_id(flag: Option<&str>) -> (external_id: bool)
    ensures
        external_id == external_id_of(text_of(flag)),
{
    match flag {
        Some(text) => text.eq("true"),
        None => false,
    }
}

/// What a `ModelDescriptor` holds, as mathematical values.
pub struct ModelView {
    /// The name of the record type.
    pub record_name: Seq<char>,
    /// The fields in declaration order.
    pub fields: Seq<FieldView>,
    /// The position of the identity field among `fields`.
    pub id_index: int,
    /// Whether identity values are supplied by the caller.
    pub external_id: bool,
    /// The dialect that statements are written in.
    pub dialect: DbType,
    /// The name of the table that holds the records.
    pub table_name: Seq<char>,
}

impl ModelView {
    /// A descriptor has at least one field, and its identity field is one
    /// of its fields.
    pub open spec fn wf(self) -> bool {
        0 <= self.id_index < self.fields.len()
    }

    /// The identity field.
    pub open spec fn id_field(self) -> FieldView {
        self.fields[self.id_index]
    }

    /// The name of the identity column.
    pub open spec fn id_column(self) -> Seq<char> {
        self.id_field().name
    }

    /// The descriptor that is built from the raw description of a record
    /// type with a given table name, or the reason why none is built. An
    /// unknown dialect is reported before an empty field list.
    pub open spec fn build(
        record_name: Seq<char>,
        table_name: Seq<char>,
        fields: Seq<FieldView>,
        dialect_tag: Option<Seq<char>>,
        external_id_flag: Option<Seq<char>>,
    ) -> Result<ModelView, ModelError> {
        match DbType::of_annotation(dialect_tag) {
            None => Err(ModelError::UnknownDialect),
            Some(dialect) => if fields.len() == 0 {
                Err(ModelError::NoFields)
            } else {
                Ok(
                    ModelView {
                        record_name,
                        fields,
                        id_index: resolved_id(last_id_candidate(fields)),
                        external_id: external_id_of(external_id_flag),
                        dialect,
                        table_name,
                    },
                )
            },
        }
    }
}

/// The resolved description of one record type: its fields in declaration
/// order, its identity field, its dialect and its table name.
#[derive(Debug)]
pub struct ModelDescriptor {
    record_name: String,
    fields: Vec<FieldDescriptor>,
    id_index: usize,
    external_id: bool,
    dialect: DbType,
    table_name: String,
}

impl View for ModelDescriptor {
    type V = ModelView;

    closed spec fn view(&self) -> ModelView {
        ModelView {
            record_name: self.record_name@,
            fields: field_views(self.fields@),
            id_index: self.id_index as int,
            external_id: self.external_id,
            dialect: self.dialect,
            table_name: self.table_name@,
        }
    }
}

/// The view of the outcome of building a descriptor.
pub open spec fn outcome_view(outcome: Result<ModelDescriptor, ModelError>) -> Result<
    ModelView,
    ModelError,
> {
    match outcome {
        Ok(model) => Ok(model@),
        Err(e) => Err(e),
    }
}

impl ModelDescriptor {
    #[verifier::type_invariant]
    spec fn well_formed(&self) -> bool {
        self.id_index < self.fields.len()
    }

    /// Builds the descriptor of a record type from its raw description. The
    /// table is named by the snake-case form of the record's name.
    ///
    /// Fails when the dialect tag names no dialect, or when there is no
    /// field. A missing dialect tag means SQLite. The identity field is the
    /// last field that carries the identity annotation, or the first field
    /// when none does. The external-id flag counts only if its text is
    /// `true`.
    pub fn new(
        record_name: &str,
        fields: Vec<FieldDescriptor>,
        dialect_tag: Option<&str>,
        external_id_flag: Option<&str>,
    ) -> (outcome: Result<ModelDescriptor, ModelError>)
        ensures
            outcome_view(outcome) == ModelView::build(
                record_name@,
                snake_case(record_name@),
                field_views(fields@),
                text_of(dialect_tag),
                text_of(external_id_flag),
            ),
            outcome matches Ok(model) ==> model@.wf(),
    {
        let table = table_name(record_name);
        ModelDescriptor::with_table_name(record_name, table, fields, dialect_tag, external_id_flag)
    }

    /// Builds the descriptor of a record type whose table name is given
    /// rather than derived. Everything else is as in `new`.
    pub fn with_table_name(
        record_name: &str,
        table_name: String,
        fields: Vec<FieldDescriptor>,
        dialect_tag: Option<&str>,
        external_id_flag: Option<&str>,
    ) -> (outcome: Result<ModelDescriptor, ModelError>)
        ensures
            outcome_view(outcome) == ModelView::build(
                record_name@,
                table_name@,
                field_views(fields@),
                text_of(dialect_tag),
                text_of(external_id_flag),
            ),
            outcome matches Ok(model) ==> model@.wf(),
    {
        let dialect = match DbType::from_annotation(dialect_tag) {
            Ok(d) => d,
            Err(e) => {
                return Err(e);
            },
        };
        if fields.len() == 0 {
            return Err(ModelError::NoFields);
        }
        let explicit = last_id_annotation(&fields);
        proof {
            lemma_last_id_candidate(field_views(fields@));
        }
        let id_index = resolve_id_field(&fields, explicit);
        let external_id = parse_external_id(external_id_flag);
        Ok(
            ModelDescriptor {
                record_name: String::from_str(record_name),
                fields,
                id_index,
                external_id,
                dialect,
                table_name,
            },
        )
    }

    /// The name of the record type.
    pub fn record_name(&self) -> (name: &str)
        ensures
            name@ == self@.record_name,
    {
        self.record_name.as_str()
    }

    /// The name of the table, without quotes.
    pub fn table_name(&self) -> (name: &str)
        ensures
            name@ == self@.table_name,
    {
        self.table_name.as_str()
    }

    /// The fields in declaration order. There is at least one.
    pub fn fields(&self) -> (fields: &Vec<FieldDescriptor>)
        ensures
            field_views(fields@) == self@.fields,
            fields.len() > 0,
            self@.wf(),
    {
        proof {
            use_type_invariant(self);
        }
        &self.fields
    }

    /// The position of the identity field among the fields.
    pub fn id_index(&self) -> (position: usize)
        ensures
            position as int == self@.id_index,
            self@.wf(),
    {
        proof {
            use_type_invariant(self);
        }
        self.id_index
    }

    /// The identity field.
    pub fn id_field(&self) -> (field: &FieldDescriptor)
        ensures
            field@ == self@.id_field(),
            self@.wf(),
    {
        proof {
            use_type_invariant(self);
        }
        &self.fields[self.id_index]
    }

    /// The name of the identity column, without quotes.
    pub fn id_column(&self) -> (name: &str)
        ensures
            name@ == self@.id_column(),
            self@.wf(),
    {
        self.id_field().name.as_str()
    }

    /// The value type of the identity field.
    pub fn id_type(&self) -> (ty: &str)
        ensures
            ty@ == self@.id_field().ty,
            self@.wf(),
    {
        self.id_field().ty.as_str()
    }

    /// Whether identity values are supplied by the caller rather than
    /// assigned by the database on insert.
    pub fn external_id(&self) -> (external_id: bool)
        ensures
            external_id == self@.external_id,
    {
        self.external_id
    }

    /// The dialect that statements are written in.
    pub fn dialect(&self) -> (dialect: DbType)
        ensures
            dialect == self@.dialect,
    {
        self.dialect
    }

    /// Quotes an identifier for the descriptor's dialect.
    pub fn quote_ident(&self, ident: &str) -> (text: String)
        ensures
            text@ == self@.dialect.quoted(ident@),
    {
        self.dialect.quote_ident(ident)
    }
}

} // verus!

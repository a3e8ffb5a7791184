//! Schema model of a collection, and its derivation from the description of
//! a native record type.

use vstd::prelude::*;

verus! {

/// The service's scalar field types.
#[derive(PartialEq, Eq, Clone, Copy, Debug, Structural)]
pub enum BaseType {
    String,
    Int32,
    Int64,
    Float,
    Bool,
    Geopoint,
    Object,
}

/// A field type of the service: a scalar type, or an array of a field type.
#[derive(PartialEq, Eq, Debug)]
pub enum FieldType {
    Scalar(BaseType),
    Array(Box<FieldType>),
}

/// The type of a field of a native record type.
#[derive(PartialEq, Eq, Debug)]
pub enum NativeType {
    Int32,
    Int64,
    Float,
    Bool,
    Str,
    Sequence(Box<NativeType>),
    Optional(Box<NativeType>),
    /// Any other structured type.
    Structured,
}

/// The field type that a native type maps to.
pub open spec fn native_field_type(t: NativeType) -> FieldType
    decreases t,
{
    match t {
        NativeType::Int32 => FieldType::Scalar(BaseType::Int32),
        NativeType::Int64 => FieldType::Scalar(BaseType::Int64),
        NativeType::Float => FieldType::Scalar(BaseType::Float),
        NativeType::Bool => FieldType::Scalar(BaseType::Bool),
        NativeType::Str => FieldType::Scalar(BaseType::String),
        NativeType::Sequence(inner) => FieldType::Array(Box::new(native_field_type(*inner))),
        NativeType::Optional(inner) => native_field_type(*inner),
        NativeType::Structured => FieldType::Scalar(BaseType::Object),
    }
}

/// The innermost scalar type of a field type.
pub open spec fn base_of(t: FieldType) -> BaseType
    decreases t,
{
    match t {
        FieldType::Scalar(b) => b,
        FieldType::Array(inner) => base_of(*inner),
    }
}

/// A field of an opaque object type is left out of the index unless asked.
pub open spec fn indexed_by_default(t: FieldType) -> bool {
    base_of(t) != BaseType::Object
}

/// A numeric scalar: the only fields that can order a collection by default.
pub open spec fn is_numeric(t: FieldType) -> bool {
    t == FieldType::Scalar(BaseType::Int32) || t == FieldType::Scalar(BaseType::Int64)
        || t == FieldType::Scalar(BaseType::Float)
}

impl FieldType {
    /// The innermost scalar type.
    pub fn base(&self) -> (r: BaseType)
        ensures
            r == base_of(*self),
        decreases self,
    {
        match self {
            FieldType::Scalar(b) => *b,
            FieldType::Array(inner) => inner.base(),
        }
    }

    /// The service's name of the type.
    pub fn wire_name(&self) -> (r: String)
        ensures
            r@ == wire_name(*self),
        decreases self,
    {
        match self {
            FieldType::Scalar(b) => b.name(),
            FieldType::Array(inner) => inner.wire_name().concat("[]"),
        }
    }

    /// The field type of that name, if any.
    pub fn from_wire_name(s: &str) -> (r: Option<FieldType>)
        ensures
            r == parsed_field_type(s@),
        decreases s@.len(),
    {
        let n = s.unicode_len();
        if n >= 2 && s.get_char(n - 2) == '[' && s.get_char(n - 1) == ']' {
            match FieldType::from_wire_name(s.substring_char(0, n - 2)) {
                Some(t) => Some(FieldType::Array(Box::new(t))),
                None => None,
            }
        } else {
            match BaseType::from_name(s) {
                Some(b) => Some(FieldType::Scalar(b)),
                None => None,
            }
        }
    }

    pub fn is_numeric(&self) -> (r: bool)
        ensures
            r == is_numeric(*self),
    {
        match self {
            FieldType::Scalar(BaseType::Int32) => true,
            FieldType::Scalar(BaseType::Int64) => true,
            FieldType::Scalar(BaseType::Float) => true,
            _ => false,
        }
    }
}

impl NativeType {
    /// The service's field type for this native type: integers by width,
    /// floating point, booleans and strings as themselves, a sequence as an
    /// array of its element's type, an optional as its inner type, anything
    /// else as an object.
    pub fn field_type(&self) -> (r: FieldType)
        ensures
            r == native_field_type(*self),
        decreases self,
    {
        match self {
            NativeType::Int32 => FieldType::Scalar(BaseType::Int32),
            NativeType::Int64 => FieldType::Scalar(BaseType::Int64),
            NativeType::Float => FieldType::Scalar(BaseType::Float),
            NativeType::Bool => FieldType::Scalar(BaseType::Bool),
            NativeType::Str => FieldType::Scalar(BaseType::String),
            NativeType::Sequence(inner) => FieldType::Array(Box::new(inner.field_type())),
            NativeType::Optional(inner) => inner.field_type(),
            NativeType::Structured => FieldType::Scalar(BaseType::Object),
        }
    }

    /// Whether the native type is an optional.
    pub fn is_optional(&self) -> (r: bool)
        ensures
            r == (*self is Optional),
    {
        match self {
            NativeType::Optional(_) => true,
            _ => false,
        }
    }
}

/// The service's name of a scalar type.
pub open spec fn base_name(b: BaseType) -> Seq<char> {
    match b {
        BaseType::String => "string"@,
        BaseType::Int32 => "int32"@,
        BaseType::Int64 => "int64"@,
        BaseType::Float => "float"@,
        BaseType::Bool => "bool"@,
        BaseType::Geopoint => "geopoint"@,
        BaseType::Object => "object"@,
    }
}

/// The service's name of a field type: an array is named after its element,
/// followed by `[]`.
pub open spec fn wire_name(t: FieldType) -> Seq<char>
    decreases t,
{
    match t {
        FieldType::Scalar(b) => base_name(b),
        FieldType::Array(inner) => wire_name(*inner) + "[]"@,
    }
}

/// The scalar type of that name, if any.
pub open spec fn base_named(s: Seq<char>) -> Option<BaseType> {
    if s == "string"@ {
        Some(BaseType::String)
    } else if s == "int32"@ {
        Some(BaseType::Int32)
    } else if s == "int64"@ {
        Some(BaseType::Int64)
    } else if s == "float"@ {
        Some(BaseType::Float)
    } else if s == "bool"@ {
        Some(BaseType::Bool)
    } else if s == "geopoint"@ {
        Some(BaseType::Geopoint)
    } else if s == "object"@ {
        Some(BaseType::Object)
    } else {
        None
    }
}

pub open spec fn ends_with_brackets(s: Seq<char>) -> bool {
    s.len() >= 2 && s[s.len() - 2] == '[' && s[s.len() - 1] == ']'
}

/// The field type of that name, if any.
pub open spec fn parsed_field_type(s: Seq<char>) -> Option<FieldType>
    decreases s.len(),
{
    if ends_with_brackets(s) {
        match parsed_field_type(s.subrange(0, s.len() - 2)) {
            Some(t) => Some(FieldType::Array(Box::new(t))),
            None => None,
        }
    } else {
        match base_named(s) {
            Some(b) => Some(FieldType::Scalar(b)),
            None => None,
        }
    }
}

/// Reading a field type back from its name gives the same type.
pub proof fn lemma_wire_name_round_trip(t: FieldType)
    ensures
        parsed_field_type(wire_name(t)) == Some(t),
    decreases t,
{
    reveal_strlit("[]");
    reveal_strlit("string");
    reveal_strlit("int32");
    reveal_strlit("int64");
    reveal_strlit("float");
    reveal_strlit("bool");
    reveal_strlit("geopoint");
    reveal_strlit("object");
    match t {
        FieldType::Scalar(b) => {},
        FieldType::Array(inner) => {
            lemma_wire_name_round_trip(*inner);
            let w = wire_name(t);
            assert(w.subrange(0, w.len() - 2) =~= wire_name(*inner));
        },
    }
}

impl BaseType {
    /// The service's name of the type.
    pub fn name(&self) -> (r: String)
        ensures
            r@ == base_name(*self),
    {
        match self {
            BaseType::String => String::from_str("string"),
            BaseType::Int32 => String::from_str("int32"),
            BaseType::Int64 => String::from_str("int64"),
            BaseType::Float => String::from_str("float"),
            BaseType::Bool => String::from_str("bool"),
            BaseType::Geopoint => String::from_str("geopoint"),
            BaseType::Object => String::from_str("object"),
        }
    }

    /// The scalar type of that name, if any.
    pub fn from_name(s: &str) -> (r: Option<BaseType>)
        ensures
            r == base_named(s@),
    {
        let s = String::from_str(s);
        if s == String::from_str("string") {
            Some(BaseType::String)
        } else if s == String::from_str("int32") {
            Some(BaseType::Int32)
        } else if s == String::from_str("int64") {
            Some(BaseType::Int64)
        } else if s == String::from_str("float") {
            Some(BaseType::Float)
        } else if s == String::from_str("bool") {
            Some(BaseType::Bool)
        } else if s == String::from_str("geopoint") {
            Some(BaseType::Geopoint)
        } else if s == String::from_str("object") {
            Some(BaseType::Object)
        } else {
            None
        }
    }
}


#[derive(Debug)]
pub struct FieldDeclaration {
    /// The native field's name.
    pub name: String,
    pub native_type: NativeType,
    /// A wire name that replaces the native name.
    pub rename: Option<String>,
    /// Marked as a facet.
    pub facet: bool,
    /// An explicit optional annotation.
    pub optional: Option<bool>,
    /// An explicit index annotation.
    pub index: Option<bool>,
}

/// A field descriptor of a collection's schema.
#[derive(PartialEq, Eq, Debug)]
pub struct Field {
    pub name: String,
    pub data_type: FieldType,
    pub facet: bool,
    pub optional: bool,
    pub index: bool,
}

pub struct FieldDeclarationView {
    pub name: Seq<char>,
    pub native_type: NativeType,
    pub rename: Option<Seq<char>>,
    pub facet: bool,
    pub optional: Option<bool>,
    pub index: Option<bool>,
}

pub struct FieldView {
    pub name: Seq<char>,
    pub data_type: FieldType,
    pub facet: bool,
    pub optional: bool,
    pub index: bool,
}

impl View for FieldDeclaration {
    type V = FieldDeclarationView;

    open spec fn view(&self) -> FieldDeclarationView {
        FieldDeclarationView {
            name: self.name@,
            native_type: self.native_type,
            rename: match self.rename {
                Some(r) => Some(r@),
                None => None,
            },
            facet: self.facet,
            optional: self.optional,
            index: self.index,
        }
    }
}

impl View for Field {
    type V = FieldView;

    open spec fn view(&self) -> FieldView {
        FieldView {
            name: self.name@,
            data_type: self.data_type,
            facet: self.facet,
            optional: self.optional,
            index: self.index,
        }
    }
}

/// The descriptor derived from a field declaration. The base mapping comes
/// first, the annotations then take precedence, except that an optional
/// native type makes the field optional whatever its annotation says.
pub open spec fn derived_field(d: FieldDeclarationView) -> FieldView {
    let data_type = native_field_type(d.native_type);
    FieldView {
        name: match d.rename {
            Some(r) => r,
            None => d.name,
        },
        data_type,
        facet: d.facet,
        optional: d.native_type is Optional || d.optional == Some(true),
        index: match d.index {
            Some(i) => i,
            None => indexed_by_default(data_type),
        },
    }
}

impl FieldDeclaration {
    /// A declaration without annotations.
    pub fn new(name: String, native_type: NativeType) -> (r: FieldDeclaration)
        ensures
            r@.name == name@,
            r@.native_type == native_type,
            r@.rename is None,
            !r@.facet,
            r@.optional is None,
            r@.index is None,
    {
        FieldDeclaration { name, native_type, rename: None, facet: false, optional: None, index: None }
    }

    /// The field descriptor that this declaration yields.
    pub fn derive_field(&self) -> (r: Field)
        ensures
            r@ == derived_field(self@),
    {
        let data_type = self.native_type.field_type();
        let name = match &self.rename {
            Some(r) => r.clone(),
            None => self.name.clone(),
        };
        let optional = self.native_type.is_optional() || match self.optional {
            Some(o) => o,
            None => false,
        };
        let index = match self.index {
            Some(i) => i,
            None => data_type.base() != BaseType::Object,
        };
        Field { name, data_type, facet: self.facet, optional, index }
    }
}

/// Why a schema declaration is refused.
#[derive(PartialEq, Eq, Clone, Copy, Debug, Structural)]
pub enum SchemaError {
    /// The collection name is empty.
    EmptyCollectionName,
    /// Two fields have the same wire name.
    DuplicateFieldName,
    /// The default sorting field names no field.
    UnknownSortingField,
    /// The default sorting field is not a numeric scalar.
    SortingFieldNotNumeric,
    /// The default sorting field may be absent from a document.
    SortingFieldOptional,
}

/// The schema of a collection: its name, its fields in order, and the field
/// that orders it by default. Only a schema that breaks none of the rules
/// can be made.
#[derive(PartialEq, Eq, Debug)]
pub struct CollectionSchema {
    name: String,
    fields: Vec<Field>,
    default_sorting_field: Option<String>,
}

pub struct CollectionSchemaView {
    pub name: Seq<char>,
    pub fields: Seq<FieldView>,
    pub default_sorting_field: Option<Seq<char>>,
}

pub open spec fn fields_view(fs: Seq<Field>) -> Seq<FieldView> {
    fs.map_values(|f: Field| f@)
}

pub open spec fn opt_string_view(o: Option<String>) -> Option<Seq<char>> {
    match o {
        Some(s) => Some(s@),
        None => None,
    }
}

impl View for CollectionSchema {
    type V = CollectionSchemaView;

    closed spec fn view(&self) -> CollectionSchemaView {
        CollectionSchemaView {
            name: self.name@,
            fields: fields_view(self.fields@),
            default_sorting_field: opt_string_view(self.default_sorting_field),
        }
    }
}

/// No two fields share a wire name.
pub open spec fn names_unique(fs: Seq<FieldView>) -> bool {
    forall|i: int, j: int| 0 <= i < j < fs.len() ==> fs[i].name != fs[j].name
}

pub open spec fn has_field(fs: Seq<FieldView>, name: Seq<char>) -> bool {
    exists|i: int| 0 <= i < fs.len() && fs[i].name == name
}

/// The field of that name, where there is one.
pub open spec fn field_named(fs: Seq<FieldView>, name: Seq<char>) -> FieldView {
    fs[choose|i: int| 0 <= i < fs.len() && fs[i].name == name]
}

/// The first rule that a schema breaks, if any.
pub open spec fn schema_error(
    name: Seq<char>,
    fs: Seq<FieldView>,
    sorting: Option<Seq<char>>,
) -> Option<SchemaError> {
    if name.len() == 0 {
        Some(SchemaError::EmptyCollectionName)
    } else if !names_unique(fs) {
        Some(SchemaError::DuplicateFieldName)
    } else {
        match sorting {
            None => None,
            Some(s) => if !has_field(fs, s) {
                Some(SchemaError::UnknownSortingField)
            } else if !is_numeric(field_named(fs, s).data_type) {
                Some(SchemaError::SortingFieldNotNumeric)
            } else if field_named(fs, s).optional {
                Some(SchemaError::SortingFieldOptional)
            } else {
                None
            },
        }
    }
}

impl CollectionSchemaView {
    /// A schema that breaks none of the rules.
    pub open spec fn wf(self) -> bool {
        schema_error(self.name, self.fields, self.default_sorting_field) is None
    }
}

/// Whether any two fields share a wire name.
fn fields_unique(fields: &Vec<Field>) -> (r: bool)
    ensures
        r == names_unique(fields_view(fields@)),
{
    let ghost fs = fields_view(fields@);
    let n = fields.len();
    let mut i: usize = 0;
    while i < n
        invariant
            n == fields@.len(),
            fs == fields_view(fields@),
            i <= n,
            forall|a: int, b: int| 0 <= a < b < fs.len() && a < i ==> fs[a].name != fs[b].name,
        decreases n - i,
    {
        let mut j: usize = i + 1;
        while j < n
            invariant
                n == fields@.len(),
                fs == fields_view(fields@),
                i < n,
                i < j <= n,
                forall|a: int, b: int| 0 <= a < b < fs.len() && a < i ==> fs[a].name != fs[b].name,
                forall|b: int| i < b < j ==> fs[i as int].name != fs[b].name,
            decreases n - j,
        {
            if fields[i].name == fields[j].name {
                assert(fs[i as int].name == fs[j as int].name);
                return false;
            }
            j = j + 1;
        }
        i = i + 1;
    }
    true
}

/// The position of the field of that name.
fn find_field(fields: &Vec<Field>, name: &String) -> (r: Option<usize>)
    ensures
        match r {
            Some(i) => i < fields@.len() && fields@[i as int].name@ == name@,
            None => !has_field(fields_view(fields@), name@),
        },
{
    let ghost fs = fields_view(fields@);
    let mut i: usize = 0;
    while i < fields.len()
        invariant
            fs == fields_view(fields@),
            i <= fields@.len(),
            forall|k: int| 0 <= k < i ==> fs[k].name != name@,
        decreases fields@.len() - i,
    {
        if fields[i].name == *name {
            return Some(i);
        }
        i = i + 1;
    }
    None
}

/// The first rule that a schema of that name, fields and default sorting
/// field breaks, if any.
pub fn check_schema(name: &String, fields: &Vec<Field>, default_sorting_field: &Option<String>) -> (r:
    Option<SchemaError>)
    ensures
        r == schema_error(name@, fields_view(fields@), opt_string_view(*default_sorting_field)),
{
    let ghost fs = fields_view(fields@);
    if name.as_str().is_empty() {
        return Some(SchemaError::EmptyCollectionName);
    }
    if !fields_unique(fields) {
        return Some(SchemaError::DuplicateFieldName);
    }
    match default_sorting_field {
        None => None,
        Some(s) => {
            match find_field(fields, s) {
                None => Some(SchemaError::UnknownSortingField),
                Some(i) => {
                    proof {
                        assert(fs[i as int].name == s@);
                        let j = choose|j: int| 0 <= j < fs.len() && fs[j].name == s@;
                        assert(i as int == j);
                    }
                    if !fields[i].data_type.is_numeric() {
                        Some(SchemaError::SortingFieldNotNumeric)
                    } else if fields[i].optional {
                        Some(SchemaError::SortingFieldOptional)
                    } else {
                        None
                    }
                },
            }
        },
    }
}

impl CollectionSchema {
    #[verifier::type_invariant]
    spec fn inv(&self) -> bool {
        self@.wf()
    }

    pub fn name(&self) -> (r: &String)
        ensures
            r@ == self@.name,
    {
        &self.name
    }

    pub fn fields(&self) -> (r: &Vec<Field>)
        ensures
            fields_view(r@) == self@.fields,
    {
        &self.fields
    }

    pub fn default_sorting_field(&self) -> (r: &Option<String>)
        ensures
            opt_string_view(*r) == self@.default_sorting_field,
    {
        &self.default_sorting_field
    }

    /// A schema from fields already described, once it breaks none of the
    /// rules.
    pub fn new(name: String, fields: Vec<Field>, default_sorting_field: Option<String>) -> (r: Result<
        CollectionSchema,
        SchemaError,
    >)
        ensures
            match r {
                Ok(s) => s@ == (CollectionSchemaView {
                    name: name@,
                    fields: fields_view(fields@),
                    default_sorting_field: opt_string_view(default_sorting_field),
                }) && s@.wf(),
                Err(e) => schema_error(
                    name@,
                    fields_view(fields@),
                    opt_string_view(default_sorting_field),
                ) == Some(e),
            },
    {
        match check_schema(&name, &fields, &default_sorting_field) {
            Some(e) => Err(e),
            None => Ok(CollectionSchema { name, fields, default_sorting_field }),
        }
    }
}

/// The description of a native record type: the collection it is stored in,
/// its fields in order, and the field that orders it by default.
#[derive(Debug)]
pub struct CollectionSchemaBuilder {
    pub name: String,
    pub fields: Vec<FieldDeclaration>,
    pub default_sorting_field: Option<String>,
}

pub struct CollectionSchemaBuilderView {
    pub name: Seq<char>,
    pub fields: Seq<FieldDeclarationView>,
    pub default_sorting_field: Option<Seq<char>>,
}

impl View for CollectionSchemaBuilder {
    type V = CollectionSchemaBuilderView;

    open spec fn view(&self) -> CollectionSchemaBuilderView {
        CollectionSchemaBuilderView {
            name: self.name@,
            fields: self.fields@.map_values(|d: FieldDeclaration| d@),
            default_sorting_field: opt_string_view(self.default_sorting_field),
        }
    }
}

/// The descriptors derived from declarations, in their order.
pub open spec fn derived_fields(ds: Seq<FieldDeclarationView>) -> Seq<FieldView> {
    ds.map_values(|d: FieldDeclarationView| derived_field(d))
}

/// The schema that a record type's description yields, valid or not.
pub open spec fn derived_schema(b: CollectionSchemaBuilderView) -> CollectionSchemaView {
    CollectionSchemaView {
        name: b.name,
        fields: derived_fields(b.fields),
        default_sorting_field: b.default_sorting_field,
    }
}

/// What building from a record type's description gives: its derived
/// schema, or the first rule that schema breaks.
pub open spec fn build_result(b: CollectionSchemaBuilderView) -> Result<
    CollectionSchemaView,
    SchemaError,
> {
    let s = derived_schema(b);
    match schema_error(s.name, s.fields, s.default_sorting_field) {
        Some(e) => Err(e),
        None => Ok(s),
    }
}

/// Derives the descriptors of the declarations, in order.
pub fn derive_fields(decls: &Vec<FieldDeclaration>) -> (r: Vec<Field>)
    ensures
        fields_view(r@) == derived_fields(decls@.map_values(|d: FieldDeclaration| d@)),
{
    let mut out: Vec<Field> = Vec::new();
    let mut i: usize = 0;
    while i < decls.len()
        invariant
            i <= decls@.len(),
            out@.len() == i,
            forall|k: int| 0 <= k < i ==> out@[k]@ == derived_field(decls@[k]@),
        decreases decls@.len() - i,
    {
        out.push(decls[i].derive_field());
        i = i + 1;
    }
    assert(fields_view(out@) =~= derived_fields(decls@.map_values(|d: FieldDeclaration| d@)));
    out
}

impl CollectionSchemaBuilder {
    /// The description of a record type stored in the collection of that
    /// name, with no fields yet.
    pub fn new(name: String) -> (r: CollectionSchemaBuilder)
        ensures
            r@.name == name@,
            r@.fields.len() == 0,
            r@.default_sorting_field is None,
    {
        CollectionSchemaBuilder { name, fields: Vec::new(), default_sorting_field: None }
    }

    /// Adds a field after those already declared.
    pub fn field(self, decl: FieldDeclaration) -> (r: CollectionSchemaBuilder)
        ensures
            r@.name == self@.name,
            r@.fields == self@.fields.push(decl@),
            r@.default_sorting_field == self@.default_sorting_field,
    {
        let mut b = self;
        b.fields.push(decl);
        assert(b@.fields =~= self@.fields.push(decl@));
        b
    }

    /// Names the field that orders the collection by default.
    pub fn default_sorting_field(self, name: String) -> (r: CollectionSchemaBuilder)
        ensures
            r@.name == self@.name,
            r@.fields == self@.fields,
            r@.default_sorting_field == Some(name@),
    {
        CollectionSchemaBuilder {
            name: self.name,
            fields: self.fields,
            default_sorting_field: Some(name),
        }
    }

    /// The schema of the record type, or the first rule that it breaks:
    /// checked here, before anything is sent to the service.
    pub fn build(&self) -> (r: Result<CollectionSchema, SchemaError>)
        ensures
            match r {
                Ok(s) => build_result(self@) == Ok::<CollectionSchemaView, SchemaError>(s@),
                Err(e) => build_result(self@) == Err::<CollectionSchemaView, SchemaError>(e),
            },
            r is Ok ==> r->Ok_0@.wf(),
    {
        let fields = derive_fields(&self.fields);
        let name = self.name.clone();
        let sorting = match &self.default_sorting_field {
            Some(s) => Some(s.clone()),
            None => None,
        };
        CollectionSchema::new(name, fields, sorting)
    }
}

/// Deriving a schema is deterministic: two descriptions of one record type
/// give field-for-field identical schemas, or the same error.
pub proof fn lemma_derivation_deterministic(a: CollectionSchemaBuilderView, b: CollectionSchemaBuilderView)
    requires
        a == b,
    ensures
        derived_schema(a) == derived_schema(b),
        build_result(a) == build_result(b),
        forall|i: int| 0 <= i < a.fields.len() ==> derived_schema(a).fields[i] == derived_field(b.fields[i]),
{
}

/// A field whose native type is an optional is optional in the derived
/// schema, whatever its optional annotation says.
pub proof fn lemma_optional_is_forced(b: CollectionSchemaBuilderView, i: int)
    requires
        0 <= i < b.fields.len(),
        b.fields[i].native_type is Optional,
    ensures
        derived_schema(b).fields[i].optional,
        derived_field(FieldDeclarationView { optional: Some(false), ..b.fields[i] }).optional,
{
}

impl FieldType {
    /// Whether two field types are the same.
    pub fn same_as(&self, other: &FieldType) -> (r: bool)
        ensures
            r == (*self == *other),
        decreases self,
    {
        match (self, other) {
            (FieldType::Scalar(a), FieldType::Scalar(b)) => *a == *b,
            (FieldType::Array(a), FieldType::Array(b)) => a.same_as(b),
            _ => false,
        }
    }
}

impl Field {
    /// Whether two field descriptors are the same.
    pub fn same_as(&self, other: &Field) -> (r: bool)
        ensures
            r == (self@ == other@),
    {
        self.name == other.name && self.data_type.same_as(&other.data_type) && self.facet
            == other.facet && self.optional == other.optional && self.index == other.index
    }
}

impl CollectionSchema {
    /// Whether two schemas are the same, field for field and in order.
    pub fn same_as(&self, other: &CollectionSchema) -> (r: bool)
        ensures
            r == (self@ == other@),
    {
        if self.name != other.name {
            return false;
        }
        let sorting_same = match (&self.default_sorting_field, &other.default_sorting_field) {
            (Some(a), Some(b)) => *a == *b,
            (None, None) => true,
            _ => false,
        };
        if !sorting_same {
            return false;
        }
        if self.fields.len() != other.fields.len() {
            assert(fields_view(self.fields@).len() != fields_view(other.fields@).len());
            return false;
        }
        let mut i: usize = 0;
        while i < self.fields.len()
            invariant
                i <= self.fields@.len(),
                self.fields@.len() == other.fields@.len(),
                forall|k: int| 0 <= k < i ==> self.fields@[k]@ == other.fields@[k]@,
            decreases self.fields@.len() - i,
        {
            if !self.fields[i].same_as(&other.fields[i]) {
                assert(fields_view(self.fields@)[i as int] != fields_view(other.fields@)[i as int]);
                return false;
            }
            i = i + 1;
        }
        assert(fields_view(self.fields@) =~= fields_view(other.fields@));
        true
    }
}

/// The service's description of a collection: its schema and how many
/// documents it holds.
#[derive(Debug)]
pub struct CollectionResponse {
    pub schema: CollectionSchema,
    pub num_documents: usize,
}

impl CollectionResponse {
    /// Whether the collection's schema is the given one.
    pub fn matches_schema(&self, schema: &CollectionSchema) -> (r: bool)
        ensures
            r == (self.schema@ == schema@),
    {
        self.schema.same_as(schema)
    }
}

/// A schema that the service echoes, with each field type carried by its
/// name, equals the schema derived locally.
pub proof fn lemma_echoed_schema_equals_derived(b: CollectionSchemaBuilderView, echoed: CollectionSchemaView)
    requires
        build_result(b) is Ok,
        echoed.name == b.name,
        echoed.default_sorting_field == b.default_sorting_field,
        echoed.fields.len() == b.fields.len(),
        forall|i: int|
            #![trigger echoed.fields[i]]
            0 <= i < echoed.fields.len() ==> {
                let d = derived_field(b.fields[i]);
                &&& echoed.fields[i].name == d.name
                &&& Some(echoed.fields[i].data_type) == parsed_field_type(wire_name(d.data_type))
                &&& echoed.fields[i].facet == d.facet
                &&& echoed.fields[i].optional == d.optional
                &&& echoed.fields[i].index == d.index
            },
    ensures
        build_result(b) == Ok::<CollectionSchemaView, SchemaError>(echoed),
{
    let s = derived_schema(b);
    assert forall|i: int| 0 <= i < echoed.fields.len() implies echoed.fields[i] == s.fields[i] by {
        lemma_wire_name_round_trip(derived_field(b.fields[i]).data_type);
    }
    assert(echoed.fields =~= s.fields);
}

} // verus!

//! Marshalling between the columns of the store and typed fields.
//!
//! [`TableField`] is the capability of one field type: the type of its
//! column and how a stored value becomes a value of the type. A record
//! type lists its fields through [`TableRow`]; the generic functions of
//! this module read and show a row from that list alone.
use vstd::prelude::*;
use vstd::string::StringExecFns;
use crate::db::{DbConnection, RowId};
use crate::error::Error;
use crate::schema::{FieldKind, FieldSpec, TableConfig};
use crate::text::{chars_of, decimal, format_i64, number_list, parse_number_list};

verus! {

impl RowId {
    /// The identity in decimal.
    pub fn to_string(&self) -> (r: String)
        ensures
            r@ == decimal(self.0 as int),
    {
        format_i64(self.0)
    }
}

/// The row identities with the numbers `numbers`.
pub open spec fn ids_of(numbers: Seq<i64>) -> Seq<RowId> {
    numbers.map_values(|n: i64| RowId(n))
}

/// Reads `text` as a list of row identities: their decimal texts joined by
/// commas. The empty text is the empty list. A segment that is no 64-bit
/// integer makes the whole text an error, a [`Error::DatabaseError`].
pub fn decode_row_ids(text: &str) -> (r: Result<Vec<RowId>, Error>)
    ensures
        match number_list(text@) {
            Some(numbers) => r matches Ok(ids) && ids@ == ids_of(numbers),
            None => r matches Err(Error::DatabaseError(_)),
        },
{
    let chars = chars_of(text);
    match parse_number_list(&chars) {
        None => Err(Error::DatabaseError(String::from_str("malformed list of row identities"))),
        Some(numbers) => {
            let mut ids: Vec<RowId> = Vec::new();
            let mut i: usize = 0;
            while i < numbers.len()
                invariant
                    i <= numbers@.len(),
                    ids@ == ids_of(numbers@.take(i as int)),
                decreases numbers@.len() - i,
            {
                ids.push(RowId(numbers[i]));
                i += 1;
                assert(ids@ =~= ids_of(numbers@.take(i as int)));
            }
            assert(numbers@.take(i as int) == numbers@);
            Ok(ids)
        },
    }
}

/// The identity that was read as the integer `read`, or the error as it
/// is.
pub fn row_id_of(read: Result<i64, Error>) -> (r: Result<RowId, Error>)
    ensures
        match read {
            Ok(v) => r == Ok::<RowId, Error>(RowId(v)),
            Err(e) => r == Err::<RowId, Error>(e),
        },
{
    match read {
        Ok(v) => Ok(RowId(v)),
        Err(e) => Err(e),
    }
}

/// The identities that were read as the text `read`, see
/// [`decode_row_ids`], or the error as it is.
pub fn row_ids_of(read: Result<String, Error>) -> (r: Result<Vec<RowId>, Error>)
    ensures
        match read {
            Ok(text) => match number_list(text@) {
                Some(numbers) => r matches Ok(ids) && ids@ == ids_of(numbers),
                None => r matches Err(Error::DatabaseError(_)),
            },
            Err(e) => r == Err::<Vec<RowId>, Error>(e),
        },
{
    match read {
        Ok(text) => decode_row_ids(text.as_str()),
        Err(e) => Err(e),
    }
}

/// A type that can be the type of a field of a record.
pub trait TableField: Sized {
    /// The kind of column that stores the field. An optional field is
    /// stored as the field itself is.
    spec fn field_kind() -> FieldKind;

    /// The type of the column that stores the field, such as `INTEGER`.
    fn sql_type() -> (r: String)
        ensures
            r@ == Self::field_kind().column_type(),
    ;

    /// Reads the field `field_name` of the row `row_id` of `table_name`.
    /// Nothing is read without an open connection; with one, the only
    /// error is the store's.
    fn from_table_field(
        db_connection: &DbConnection,
        table_name: &str,
        row_id: RowId,
        field_name: &str,
    ) -> (r: Result<Self, Error>)
        ensures
            !db_connection.open() ==> r matches Err(Error::NoConnectionError),
            db_connection.open() ==> (r is Ok || r matches Err(Error::DatabaseError(_))),
    ;
}

impl TableField for String {
    fn sql_type() -> (r: String) {
        let r = String::from_str(FieldKind::Text.sql_type());
        assert(r@ == Self::field_kind().column_type());
        r
    }

    open spec fn field_kind() -> FieldKind {
        FieldKind::Text
    }

    fn from_table_field(
        db_connection: &DbConnection,
        table_name: &str,
        row_id: RowId,
        field_name: &str,
    ) -> (r: Result<Self, Error>)
        ensures
            db_connection.open() ==> (r is Ok || r matches Err(Error::DatabaseError(_))),
    {
        db_connection.get_text_in_table_row(table_name, row_id, field_name)
    }
}

impl TableField for i32 {
    fn sql_type() -> (r: String) {
        let r = String::from_str(FieldKind::Int32.sql_type());
        assert(r@ == Self::field_kind().column_type());
        r
    }

    open spec fn field_kind() -> FieldKind {
        FieldKind::Int32
    }

    fn from_table_field(
        db_connection: &DbConnection,
        table_name: &str,
        row_id: RowId,
        field_name: &str,
    ) -> (r: Result<Self, Error>)
        ensures
            db_connection.open() ==> (r is Ok || r matches Err(Error::DatabaseError(_))),
    {
        db_connection.get_i32_in_table_row(table_name, row_id, field_name)
    }
}

impl TableField for i64 {
    fn sql_type() -> (r: String) {
        let r = String::from_str(FieldKind::Int64.sql_type());
        assert(r@ == Self::field_kind().column_type());
        r
    }

    open spec fn field_kind() -> FieldKind {
        FieldKind::Int64
    }

    fn from_table_field(
        db_connection: &DbConnection,
        table_name: &str,
        row_id: RowId,
        field_name: &str,
    ) -> (r: Result<Self, Error>)
        ensures
            db_connection.open() ==> (r is Ok || r matches Err(Error::DatabaseError(_))),
    {
        db_connection.get_i64_in_table_row(table_name, row_id, field_name)
    }
}

impl TableField for RowId {
    fn sql_type() -> (r: String) {
        let r = String::from_str(FieldKind::Id.sql_type());
        assert(r@ == Self::field_kind().column_type());
        r
    }

    open spec fn field_kind() -> FieldKind {
        FieldKind::Id
    }

    fn from_table_field(
        db_connection: &DbConnection,
        table_name: &str,
        row_id: RowId,
        field_name: &str,
    ) -> (r: Result<Self, Error>)
        ensures
            db_connection.open() ==> (r is Ok || r matches Err(Error::DatabaseError(_))),
    {
        row_id_of(db_connection.get_i64_in_table_row(table_name, row_id, field_name))
    }
}

impl TableField for Vec<RowId> {
    fn sql_type() -> (r: String) {
        let r = String::from_str(FieldKind::IdList.sql_type());
        assert(r@ == Self::field_kind().column_type());
        r
    }

    open spec fn field_kind() -> FieldKind {
        FieldKind::IdList
    }

    fn from_table_field(
        db_connection: &DbConnection,
        table_name: &str,
        row_id: RowId,
        field_name: &str,
    ) -> (r: Result<Self, Error>)
        ensures
            db_connection.open() ==> (r is Ok || r matches Err(Error::DatabaseError(_))),
    {
        row_ids_of(db_connection.get_text_in_table_row(table_name, row_id, field_name))
    }
}

/// What was read as an optional value: the value where there is one, and
/// nothing where reading it failed.
pub fn present_or_absent<T>(read: Result<T, Error>) -> (r: Option<T>)
    ensures
        match read {
            Ok(v) => r == Some(v),
            Err(_) => r.is_none(),
        },
{
    match read {
        Ok(v) => Some(v),
        Err(_) => None,
    }
}

impl<T: TableField> TableField for Option<T> {
    fn sql_type() -> String {
        T::sql_type()
    }

    open spec fn field_kind() -> FieldKind {
        T::field_kind()
    }

    /// An optional field is absent where its column cannot be read as a
    /// `T`; that is no error.
    fn from_table_field(
        db_connection: &DbConnection,
        table_name: &str,
        row_id: RowId,
        field_name: &str,
    ) -> (r: Result<Self, Error>)
        ensures
            db_connection.open() ==> r is Ok,
    {
        if !db_connection.is_open() {
            return Err(Error::NoConnectionError);
        }
        Ok(present_or_absent(T::from_table_field(db_connection, table_name, row_id, field_name)))
    }
}

impl DbConnection {
    /// The field `field_name` of the row `row_id` of `table`, as a value
    /// of the type `F`. Without an open connection the result is
    /// [`Error::NoConnectionError`]; with one, the only error is a
    /// [`Error::DatabaseError`].
    pub fn get_field_in_table_row<F: TableField>(
        &self,
        table: &str,
        row_id: RowId,
        field_name: &str,
    ) -> (r: Result<F, Error>)
        ensures
            !self.open() ==> r matches Err(Error::NoConnectionError),
            self.open() ==> (r is Ok || r matches Err(Error::DatabaseError(_))),
    {
        F::from_table_field(self, table, row_id, field_name)
    }
}

/// A record type: the fields of a row of its table, and how a row is read.
pub trait TableRow: Sized {
    /// Whether `fields` are the fields of a record, in the order of their
    /// columns.
    spec fn declared(fields: Vec<FieldSpec>) -> bool;

    /// The fields of a record, in the order of their columns.
    fn fields() -> (r: Vec<FieldSpec>)
        ensures
            Self::declared(r),
    ;

    /// Reads the row `row_id` of `table_name` as a record.
    fn from_table_row(db_connection: &DbConnection, table_name: &str, row_id: RowId) -> Result<
        Self,
        Error,
    >;
}

impl TableConfig {
    /// The descriptor of the table `table_name` that holds records of the
    /// type `R`.
    pub fn new<R: TableRow>(table_name: &str) -> (r: Self)
        ensures
            r.table_name@ == table_name@,
            R::declared(r.fields),
    {
        TableConfig::with_fields(table_name, R::fields())
    }
}

/// The value of one field of a row.
pub enum FieldData {
    /// A text.
    Text(String),
    /// A 32-bit integer.
    Int32(i32),
    /// A 64-bit integer.
    Int64(i64),
    /// The identity of a row.
    Id(RowId),
    /// A list of row identities.
    IdList(Vec<RowId>),
    /// An optional field that is absent.
    Absent,
}

impl FieldData {
    /// Whether the value is one that a field declared as `spec` may have.
    pub open spec fn fits(&self, spec: &FieldSpec) -> bool {
        match self {
            FieldData::Text(_) => spec.kind == FieldKind::Text,
            FieldData::Int32(_) => spec.kind == FieldKind::Int32,
            FieldData::Int64(_) => spec.kind == FieldKind::Int64,
            FieldData::Id(_) => spec.kind == FieldKind::Id,
            FieldData::IdList(_) => spec.kind == FieldKind::IdList,
            FieldData::Absent => spec.optional,
        }
    }
}

impl FieldData {
    /// The value of a field that was read as `read`: the text as a value of
    /// a field, or the error as it is.
    pub fn of_text(read: Result<String, Error>) -> (r: Result<FieldData, Error>)
        ensures
            match read {
                Ok(v) => r == Ok::<FieldData, Error>(FieldData::Text(v)),
                Err(e) => r == Err::<FieldData, Error>(e),
            },
    {
        match read {
            Ok(v) => Ok(FieldData::Text(v)),
            Err(e) => Err(e),
        }
    }

    /// The value of a field that was read as `read`: the 32-bit integer as a value of
    /// a field, or the error as it is.
    pub fn of_i32(read: Result<i32, Error>) -> (r: Result<FieldData, Error>)
        ensures
            match read {
                Ok(v) => r == Ok::<FieldData, Error>(FieldData::Int32(v)),
                Err(e) => r == Err::<FieldData, Error>(e),
            },
    {
        match read {
            Ok(v) => Ok(FieldData::Int32(v)),
            Err(e) => Err(e),
        }
    }

    /// The value of a field that was read as `read`: the 64-bit integer as a value of
    /// a field, or the error as it is.
    pub fn of_i64(read: Result<i64, Error>) -> (r: Result<FieldData, Error>)
        ensures
            match read {
                Ok(v) => r == Ok::<FieldData, Error>(FieldData::Int64(v)),
                Err(e) => r == Err::<FieldData, Error>(e),
            },
    {
        match read {
            Ok(v) => Ok(FieldData::Int64(v)),
            Err(e) => Err(e),
        }
    }

    /// The value of a field that was read as `read`: the identity as a value of
    /// a field, or the error as it is.
    pub fn of_id(read: Result<RowId, Error>) -> (r: Result<FieldData, Error>)
        ensures
            match read {
                Ok(v) => r == Ok::<FieldData, Error>(FieldData::Id(v)),
                Err(e) => r == Err::<FieldData, Error>(e),
            },
    {
        match read {
            Ok(v) => Ok(FieldData::Id(v)),
            Err(e) => Err(e),
        }
    }

    /// The value of a field that was read as `read`: the list of identities as a value of
    /// a field, or the error as it is.
    pub fn of_ids(read: Result<Vec<RowId>, Error>) -> (r: Result<FieldData, Error>)
        ensures
            match read {
                Ok(v) => r == Ok::<FieldData, Error>(FieldData::IdList(v)),
                Err(e) => r == Err::<FieldData, Error>(e),
            },
    {
        match read {
            Ok(v) => Ok(FieldData::IdList(v)),
            Err(e) => Err(e),
        }
    }
}

fn read_present(db_connection: &DbConnection, table_name: &str, row_id: RowId, spec: &FieldSpec) -> (r:
    Result<FieldData, Error>)
    ensures
        !db_connection.open() ==> r matches Err(Error::NoConnectionError),
        db_connection.open() ==> (r is Ok || r matches Err(Error::DatabaseError(_))),
        r matches Ok(data) ==> data.fits(spec) && !(data is Absent),
{
    let name = spec.name.as_str();
    match spec.kind {
        FieldKind::Text => FieldData::of_text(
            String::from_table_field(db_connection, table_name, row_id, name),
        ),
        FieldKind::Int32 => FieldData::of_i32(
            i32::from_table_field(db_connection, table_name, row_id, name),
        ),
        FieldKind::Int64 => FieldData::of_i64(
            i64::from_table_field(db_connection, table_name, row_id, name),
        ),
        FieldKind::Id => FieldData::of_id(
            RowId::from_table_field(db_connection, table_name, row_id, name),
        ),
        FieldKind::IdList => FieldData::of_ids(
            Vec::<RowId>::from_table_field(db_connection, table_name, row_id, name),
        ),
    }
}

/// What reading a field comes to, once `read` has come back from the
/// store: a value stays, and so does an error, unless the error is
/// `forgiven`, which makes the field [`FieldData::Absent`].
pub fn settle_field(read: Result<FieldData, Error>, forgiven: bool) -> (r: Result<FieldData, Error>)
    ensures
        match read {
            Ok(data) => r == Ok::<FieldData, Error>(data),
            Err(e) => if forgiven {
                r == Ok::<FieldData, Error>(FieldData::Absent)
            } else {
                r == Err::<FieldData, Error>(e)
            },
        },
{
    match read {
        Ok(data) => Ok(data),
        Err(e) => if forgiven {
            Ok(FieldData::Absent)
        } else {
            Err(e)
        },
    }
}

/// Reads the field `spec` of the row `row_id` of `table_name`.
///
/// Without an open connection the result is [`Error::NoConnectionError`].
/// With one, a field that cannot be read is [`FieldData::Absent`] if it is
/// optional and a [`Error::DatabaseError`] if it is not.
pub fn read_field(db_connection: &DbConnection, table_name: &str, row_id: RowId, spec: &FieldSpec) -> (r:
    Result<FieldData, Error>)
    ensures
        !db_connection.open() ==> r matches Err(Error::NoConnectionError),
        db_connection.open() && spec.optional ==> r is Ok,
        db_connection.open() ==> (r is Ok || r matches Err(Error::DatabaseError(_))),
        r matches Ok(data) ==> data.fits(spec),
{
    let read = read_present(db_connection, table_name, row_id, spec);
    settle_field(read, spec.optional && db_connection.is_open())
}

/// Whether `values` holds one value for each field of `fields`, each of
/// the field's type.
pub open spec fn row_fits(values: Seq<FieldData>, fields: Seq<FieldSpec>) -> bool {
    &&& values.len() == fields.len()
    &&& forall|i: int| 0 <= i < values.len() ==> (#[trigger] values[i]).fits(&fields[i])
}

/// Whether each field of `fields` is optional.
pub open spec fn all_optional(fields: Seq<FieldSpec>) -> bool {
    forall|k: int| 0 <= k < fields.len() ==> (#[trigger] fields[k]).optional
}

/// Reads the row `row_id` of the table `config`, field by field in the
/// order of the descriptor, and stops at the first field that fails.
///
/// A descriptor without fields reads nothing and succeeds. Otherwise,
/// without an open connection the result is [`Error::NoConnectionError`].
/// With one, a row of optional fields alone is always read: what cannot
/// be read of it is absent.
pub fn read_row(db_connection: &DbConnection, config: &TableConfig, row_id: RowId) -> (r: Result<
    Vec<FieldData>,
    Error,
>)
    ensures
        config.fields@.len() == 0 ==> (r matches Ok(values) && values@.len() == 0),
        config.fields@.len() > 0 && !db_connection.open() ==> r matches Err(
            Error::NoConnectionError,
        ),
        db_connection.open() ==> (r is Ok || r matches Err(Error::DatabaseError(_))),
        db_connection.open() && all_optional(config.fields@) ==> r is Ok,
        r matches Ok(values) ==> row_fits(values@, config.fields@),
{
    let mut values: Vec<FieldData> = Vec::new();
    let mut i: usize = 0;
    while i < config.fields.len()
        invariant
            i <= config.fields@.len(),
            row_fits(values@, config.fields@.take(i as int)),
            i > 0 ==> db_connection.open(),
        decreases config.fields@.len() - i,
    {
        match read_field(db_connection, config.table_name.as_str(), row_id, &config.fields[i]) {
            Err(e) => {
                return Err(e);
            },
            Ok(data) => {
                values.push(data);
            },
        }
        i += 1;
    }
    assert(config.fields@.take(i as int) == config.fields@);
    Ok(values)
}

/// The text `s` between double quotes, with the characters escaped that
/// Rust escapes when it prints a string for debugging.
pub uninterp spec fn quoted_text(s: Seq<char>) -> Seq<char>;

/// The `Debug` form of a `str`, through `format`: the text between double
/// quotes, with quotes, backslashes and control characters escaped. The
/// result depends on `s` alone.
#[verifier::external_body]
pub(crate) fn quote(s: &str) -> (r: String)
    ensures
        r@ == quoted_text(s@),
{
    format!("{:?}", s)
}

/// The texts of `ids` with `separator` between them, each identity as
/// `before`, its decimal text and `after`.
pub open spec fn joined_ids(
    ids: Seq<RowId>,
    before: Seq<char>,
    after: Seq<char>,
    separator: Seq<char>,
) -> Seq<char>
    decreases ids.len(),
{
    if ids.len() == 0 {
        Seq::empty()
    } else if ids.len() == 1 {
        before + decimal(ids[0].0 as int) + after
    } else {
        joined_ids(ids.drop_last(), before, after, separator) + separator + before + decimal(
            ids.last().0 as int,
        ) + after
    }
}

fn join_ids(ids: &Vec<RowId>, before: &str, after: &str, separator: &str) -> (r: String)
    ensures
        r@ == joined_ids(ids@, before@, after@, separator@),
{
    let mut r = String::new();
    let mut i: usize = 0;
    while i < ids.len()
        invariant
            i <= ids@.len(),
            r@ == joined_ids(ids@.take(i as int), before@, after@, separator@),
        decreases ids@.len() - i,
    {
        let ghost done = ids@.take(i as int);
        let ghost next = ids@.take(i + 1);
        assert(next.drop_last() == done);
        assert(next.last() == ids@[i as int]);
        let ghost head = r@;
        if i > 0 {
            r.append(separator);
        }
        r.append(before);
        let number = format_i64(ids[i].0);
        r.append(number.as_str());
        r.append(after);
        proof {
            let item = before@ + decimal(ids@[i as int].0 as int) + after@;
            if i == 0 {
                assert(head == Seq::<char>::empty());
                assert(r@ =~= item);
            } else {
                assert(r@ =~= head + separator@ + before@ + decimal(ids@[i as int].0 as int)
                    + after@);
            }
        }
        i += 1;
    }
    assert(ids@.take(i as int) == ids@);
    r
}

impl FieldData {
    /// The value as Rust prints it for debugging: a text between quotes,
    /// an integer in decimal, an identity as `RowId(7)`, a list as
    /// `[RowId(1), RowId(2)]` and an absent value as `None`.
    pub open spec fn debug_text(&self) -> Seq<char> {
        match self {
            FieldData::Text(s) => quoted_text(s@),
            FieldData::Int32(v) => decimal(*v as int),
            FieldData::Int64(v) => decimal(*v as int),
            FieldData::Id(id) => "RowId("@ + decimal(id.0 as int) + ")"@,
            FieldData::IdList(ids) => "["@ + joined_ids(ids@, "RowId("@, ")"@, ", "@) + "]"@,
            FieldData::Absent => "None"@,
        }
    }

    /// The value as a cell of a table shows it: a text as it is, an
    /// integer or an identity in decimal, a list as its identities in
    /// decimal joined by commas, and nothing for an absent value.
    pub open spec fn display_text(&self) -> Seq<char> {
        match self {
            FieldData::Text(s) => s@,
            FieldData::Int32(v) => decimal(*v as int),
            FieldData::Int64(v) => decimal(*v as int),
            FieldData::Id(id) => decimal(id.0 as int),
            FieldData::IdList(ids) => joined_ids(ids@, Seq::empty(), Seq::empty(), ","@),
            FieldData::Absent => Seq::empty(),
        }
    }

    /// Computes [`FieldData::debug_text`].
    pub fn to_debug_string(&self) -> (r: String)
        ensures
            r@ == self.debug_text(),
    {
        match self {
            FieldData::Text(s) => quote(s.as_str()),
            FieldData::Int32(v) => format_i64(*v as i64),
            FieldData::Int64(v) => format_i64(*v),
            FieldData::Id(id) => {
                let mut r = String::from_str("RowId(");
                r.append(format_i64(id.0).as_str());
                r.append(")");
                r
            },
            FieldData::IdList(ids) => {
                let mut r = String::from_str("[");
                r.append(join_ids(ids, "RowId(", ")", ", ").as_str());
                r.append("]");
                r
            },
            FieldData::Absent => String::from_str("None"),
        }
    }

    /// The value of a field as a listing shows it: as Rust prints the
    /// field for debugging. The value of an optional field that is present
    /// stands in `Some(` and `)`, as `Some(RowId(7))`; one that is absent
    /// is `None`.
    pub open spec fn listed_text(&self, optional: bool) -> Seq<char> {
        if optional && !(self is Absent) {
            "Some("@ + self.debug_text() + ")"@
        } else {
            self.debug_text()
        }
    }

    /// Computes [`FieldData::listed_text`].
    pub fn to_listed_string(&self, optional: bool) -> (r: String)
        ensures
            r@ == self.listed_text(optional),
    {
        let present = match self {
            FieldData::Absent => false,
            _ => true,
        };
        if optional && present {
            let mut r = String::from_str("Some(");
            r.append(self.to_debug_string().as_str());
            r.append(")");
            r
        } else {
            self.to_debug_string()
        }
    }

    /// Computes [`FieldData::display_text`].
    pub fn to_display_string(&self) -> (r: String)
        ensures
            r@ == self.display_text(),
    {
        match self {
            FieldData::Text(s) => s.clone(),
            FieldData::Int32(v) => format_i64(*v as i64),
            FieldData::Int64(v) => format_i64(*v),
            FieldData::Id(id) => format_i64(id.0),
            FieldData::IdList(ids) => {
                proof {
                    reveal_strlit("");
                    assert(""@ =~= Seq::<char>::empty());
                }
                join_ids(ids, "", "", ",")
            },
            FieldData::Absent => String::new(),
        }
    }
}

/// The header of a listing of `fields`: `ID`, then the name of each field.
pub open spec fn header_texts(fields: Seq<FieldSpec>) -> Seq<Seq<char>> {
    seq!["ID"@] + fields.map_values(|f: FieldSpec| f.name@)
}

/// The texts of `cells`.
pub open spec fn cell_texts(cells: Seq<String>) -> Seq<Seq<char>> {
    cells.map_values(|c: String| c@)
}

/// Whether `fields` has a field at the position `i` and that field is
/// optional.
pub open spec fn optional_at(fields: Seq<FieldSpec>, i: int) -> bool {
    0 <= i < fields.len() && fields[i].optional
}

/// Each of `values` as a listing shows the field of `fields` at its
/// position: see [`FieldData::listed_text`].
pub open spec fn listed_texts(values: Seq<FieldData>, fields: Seq<FieldSpec>) -> Seq<Seq<char>> {
    Seq::new(values.len(), |i: int| values[i].listed_text(optional_at(fields, i)))
}

/// The cells of a listing for a row with the values `values` of the fields
/// `fields`: the row's identity in decimal, then each value as a listing
/// shows it.
pub open spec fn record_texts(row_id: RowId, values: Seq<FieldData>, fields: Seq<FieldSpec>) -> Seq<
    Seq<char>,
> {
    seq![decimal(row_id.0 as int)] + listed_texts(values, fields)
}

/// The cells of a listing for a row that could not be read: the row's
/// identity in decimal, then `Err`.
pub open spec fn failed_record_texts(row_id: RowId) -> Seq<Seq<char>> {
    seq![decimal(row_id.0 as int), "Err"@]
}

/// The cells of an edit view for a row with the values `values`: each
/// value as a cell shows it.
pub open spec fn display_texts(values: Seq<FieldData>) -> Seq<Seq<char>> {
    values.map_values(|v: FieldData| v.display_text())
}

proof fn lemma_cell_texts_push(cells: Seq<String>, cell: String)
    ensures
        cell_texts(cells.push(cell)) == cell_texts(cells).push(cell@),
{
    assert(cell_texts(cells.push(cell)) =~= cell_texts(cells).push(cell@));
}

proof fn lemma_names_take(fields: Seq<FieldSpec>, i: int)
    requires
        0 <= i < fields.len(),
    ensures
        fields.take(i + 1).map_values(|f: FieldSpec| f.name@) == fields.take(i).map_values(
            |f: FieldSpec| f.name@,
        ).push(fields[i].name@),
{
    assert(fields.take(i + 1).map_values(|f: FieldSpec| f.name@) =~= fields.take(i).map_values(
        |f: FieldSpec| f.name@,
    ).push(fields[i].name@));
}

proof fn lemma_record_texts_take(
    row_id: RowId,
    values: Seq<FieldData>,
    fields: Seq<FieldSpec>,
    i: int,
)
    requires
        0 <= i < values.len(),
    ensures
        record_texts(row_id, values.take(i + 1), fields) == record_texts(
            row_id,
            values.take(i),
            fields,
        ).push(values[i].listed_text(optional_at(fields, i))),
        display_texts(values.take(i + 1)) == display_texts(values.take(i)).push(
            values[i].display_text(),
        ),
{
    assert(record_texts(row_id, values.take(i + 1), fields) =~= record_texts(
        row_id,
        values.take(i),
        fields,
    ).push(values[i].listed_text(optional_at(fields, i))));
    assert(display_texts(values.take(i + 1)) =~= display_texts(values.take(i)).push(
        values[i].display_text(),
    ));
}

/// The cells of an edit view for a row that was read as `read`: each value
/// as a cell shows it, see [`display_texts`], or the error as it is.
pub fn display_cells(read: Result<Vec<FieldData>, Error>) -> (r: Result<Vec<String>, Error>)
    ensures
        match read {
            Ok(values) => r matches Ok(cells) && cell_texts(cells@) == display_texts(values@),
            Err(e) => r == Err::<Vec<String>, Error>(e),
        },
{
    match read {
        Err(e) => Err(e),
        Ok(values) => {
            let mut r: Vec<String> = Vec::new();
            let mut i: usize = 0;
            while i < values.len()
                invariant
                    i <= values@.len(),
                    cell_texts(r@) == display_texts(values@.take(i as int)),
                decreases values@.len() - i,
            {
                let cell = values[i].to_display_string();
                proof {
                    lemma_cell_texts_push(r@, cell);
                    lemma_record_texts_take(RowId(0), values@, Seq::empty(), i as int);
                }
                r.push(cell);
                i += 1;
            }
            assert(values@.take(i as int) == values@);
            Ok(r)
        },
    }
}

/// Whether `cells` can be the line of a listing for the row `row_id` of a
/// table with the fields `fields` on the connection `db`: the line of a
/// row that was read, see [`record_texts`], or of one that was not, see
/// [`failed_record_texts`].
///
/// A table without fields has the identity alone as its line. With fields
/// and without an open connection the line is that of a row that was not
/// read. On an open connection a row of optional fields alone is always
/// read.
pub open spec fn is_record_line(
    db: DbConnection,
    fields: Seq<FieldSpec>,
    row_id: RowId,
    cells: Seq<Seq<char>>,
) -> bool {
    &&& (cells == failed_record_texts(row_id) || exists|values: Seq<FieldData>|
        row_fits(values, fields) && cells == #[trigger] record_texts(row_id, values, fields))
    &&& (fields.len() == 0 ==> cells == record_texts(row_id, Seq::empty(), fields))
    &&& (fields.len() > 0 && !db.open() ==> cells == failed_record_texts(row_id))
    &&& (db.open() && all_optional(fields) ==> exists|values: Seq<FieldData>|
        row_fits(values, fields) && cells == #[trigger] record_texts(row_id, values, fields))
}

/// Whether `read` can be what is read of a row of a table with the fields
/// `fields` on the connection `db` for an edit view: the cells of some
/// values of the fields, see [`display_texts`], or an error.
///
/// A table without fields reads as no cells. With fields and without an
/// open connection the error is [`Error::NoConnectionError`]; with one it
/// is a [`Error::DatabaseError`], and a row of optional fields alone is
/// always read.
pub open spec fn is_cells_reading(
    db: DbConnection,
    fields: Seq<FieldSpec>,
    read: Result<Vec<String>, Error>,
) -> bool {
    &&& (fields.len() == 0 ==> (read matches Ok(cells) && cells@.len() == 0))
    &&& (fields.len() > 0 && !db.open() ==> (read matches Err(Error::NoConnectionError)))
    &&& (db.open() ==> (read is Ok || (read matches Err(Error::DatabaseError(_)))))
    &&& (db.open() && all_optional(fields) ==> read is Ok)
    &&& (read matches Ok(cells) ==> exists|values: Seq<FieldData>|
        row_fits(values, fields) && cell_texts(cells@) == #[trigger] display_texts(values))
}

impl TableConfig {
    /// The names of the fields, in the order of the descriptor.
    pub fn field_names(&self) -> (r: Vec<String>)
        ensures
            cell_texts(r@) == self.fields@.map_values(|f: FieldSpec| f.name@),
    {
        let mut r: Vec<String> = Vec::new();
        let mut i: usize = 0;
        while i < self.fields.len()
            invariant
                i <= self.fields@.len(),
                cell_texts(r@) == self.fields@.take(i as int).map_values(|f: FieldSpec| f.name@),
            decreases self.fields@.len() - i,
        {
            proof {
                lemma_names_take(self.fields@, i as int);
            }
            let name = self.fields[i].name.clone();
            proof {
                lemma_cell_texts_push(r@, name);
            }
            r.push(name);
            i += 1;
        }
        assert(self.fields@.take(i as int) == self.fields@);
        r
    }

    /// The header of a listing of the table: see [`header_texts`].
    pub fn header_cells(&self) -> (r: Vec<String>)
        ensures
            cell_texts(r@) == header_texts(self.fields@),
    {
        let mut r: Vec<String> = Vec::new();
        r.push(String::from_str("ID"));
        let mut names = self.field_names();
        let ghost first = r@;
        let ghost rest = names@;
        r.append(&mut names);
        assert(cell_texts(r@) =~= cell_texts(first) + cell_texts(rest));
        assert(cell_texts(first) =~= seq!["ID"@]);
        r
    }

    /// The cells of a listing for the row `row_id`, once the row was read
    /// as `read`: see [`record_texts`] for a row that was read and
    /// [`failed_record_texts`] for one that was not.
    pub fn cells_of_read(&self, row_id: RowId, read: &Result<Vec<FieldData>, Error>) -> (r: Vec<
        String,
    >)
        ensures
            match read {
                Ok(values) => cell_texts(r@) == record_texts(row_id, values@, self.fields@),
                Err(_) => cell_texts(r@) == failed_record_texts(row_id),
            },
    {
        let mut r: Vec<String> = Vec::new();
        r.push(format_i64(row_id.0));
        match read {
            Err(_) => {
                r.push(String::from_str("Err"));
                assert(cell_texts(r@) =~= failed_record_texts(row_id));
            },
            Ok(values) => {
                assert(cell_texts(r@) =~= record_texts(row_id, values@.take(0), self.fields@));
                let mut i: usize = 0;
                while i < values.len()
                    invariant
                        i <= values@.len(),
                        cell_texts(r@) == record_texts(row_id, values@.take(i as int), self.fields@),
                    decreases values@.len() - i,
                {
                    let optional = i < self.fields.len() && self.fields[i].optional;
                    let cell = values[i].to_listed_string(optional);
                    proof {
                        lemma_cell_texts_push(r@, cell);
                        lemma_record_texts_take(row_id, values@, self.fields@, i as int);
                    }
                    r.push(cell);
                    i += 1;
                }
                assert(values@.take(i as int) == values@);
            },
        }
        r
    }

    /// The cells of a listing for the row `row_id`: what
    /// [`TableConfig::cells_of_read`] makes of what [`read_row`] reads.
    ///
    /// A table without fields has the identity alone as its line. With
    /// fields and without an open connection the line is that of a row
    /// that was not read. On an open connection a row of optional fields
    /// alone is always read.
    pub fn record_cells(&self, db_connection: &DbConnection, row_id: RowId) -> (r: Vec<String>)
        ensures
            is_record_line(*db_connection, self.fields@, row_id, cell_texts(r@)),
    {
        let read = read_row(db_connection, self, row_id);
        let ghost given = read;
        proof {
            if let Ok(values) = given {
                if self.fields@.len() == 0 {
                    assert(values@ =~= Seq::<FieldData>::empty());
                }
            }
        }
        self.cells_of_read(row_id, &read)
    }

    /// The cells of an edit view for the row `row_id`: what
    /// [`display_cells`] makes of what [`read_row`] reads. Errors as for
    /// [`read_row`]: none for a table without fields, and none on an open
    /// connection for a row of optional fields alone.
    pub fn get_fields_as_strings(&self, db_connection: &DbConnection, row_id: RowId) -> (r: Result<
        Vec<String>,
        Error,
    >)
        ensures
            is_cells_reading(*db_connection, self.fields@, r),
    {
        let read = read_row(db_connection, self, row_id);
        let ghost given = read;
        let r = display_cells(read);
        proof {
            if let Ok(values) = given {
                assert(row_fits(values@, self.fields@));
                if self.fields@.len() == 0 {
                    assert(cell_texts(r->Ok_0@).len() == display_texts(values@).len());
                }
            }
        }
        r
    }
}

} // verus!

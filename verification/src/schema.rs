//! Table descriptors: the name of a table and the fields of its records.
use vstd::prelude::*;
use vstd::string::StringExecFns;

verus! {

/// The type of a field of a record.
#[derive(Clone, Copy, Debug, PartialEq, Eq, Structural)]
pub enum FieldKind {
    /// A text.
    Text,
    /// A 32-bit integer.
    Int32,
    /// A 64-bit integer.
    Int64,
    /// The identity of a row of some table.
    Id,
    /// An ordered list of row identities, stored as their decimal texts
    /// joined by commas.
    IdList,
}

impl FieldKind {
    /// The type of the column that stores a field of this kind.
    pub open spec fn column_type(self) -> Seq<char> {
        match self {
            FieldKind::Text => "TEXT"@,
            FieldKind::Int32 => "INTEGER"@,
            FieldKind::Int64 => "INTEGER"@,
            FieldKind::Id => "INTEGER"@,
            FieldKind::IdList => "TEXT"@,
        }
    }

    /// Computes [`FieldKind::column_type`].
    pub fn sql_type(self) -> (r: &'static str)
        ensures
            r@ == self.column_type(),
    {
        match self {
            FieldKind::Text => "TEXT",
            FieldKind::Int32 => "INTEGER",
            FieldKind::Int64 => "INTEGER",
            FieldKind::Id => "INTEGER",
            FieldKind::IdList => "TEXT",
        }
    }
}

/// One field of a record: the column that stores it and its type.
pub struct FieldSpec {
    /// The name of the field and of its column.
    pub name: String,
    /// The type of the field.
    pub kind: FieldKind,
    /// Whether the field may be absent. An absent field is one whose column
    /// cannot be read as a value of the field's type.
    pub optional: bool,
}

impl FieldSpec {
    /// A field named `name` of type `kind` that must be present.
    pub fn new(name: &str, kind: FieldKind) -> (r: Self)
        ensures
            r.name@ == name@,
            r.kind == kind,
            !r.optional,
    {
        FieldSpec { name: String::from_str(name), kind, optional: false }
    }

    /// A field named `name` of type `kind` that may be absent.
    pub fn optional(name: &str, kind: FieldKind) -> (r: Self)
        ensures
            r.name@ == name@,
            r.kind == kind,
            r.optional,
    {
        FieldSpec { name: String::from_str(name), kind, optional: true }
    }

    /// The definition of the field's column: its name, a space, its type.
    pub open spec fn column(&self) -> Seq<char> {
        self.name@ + " "@ + self.kind.column_type()
    }
}

/// The descriptor of one table: its name and the fields of its records,
/// in the order of their columns.
pub struct TableConfig {
    /// The name of the table.
    pub table_name: String,
    /// The fields of a record of the table.
    pub fields: Vec<FieldSpec>,
}

/// The column definitions of `fields`, joined by commas.
pub open spec fn columns_text(fields: Seq<FieldSpec>) -> Seq<char>
    decreases fields.len(),
{
    if fields.len() == 0 {
        Seq::empty()
    } else if fields.len() == 1 {
        fields[0].column()
    } else {
        columns_text(fields.drop_last()) + ","@ + fields.last().column()
    }
}

/// The statement that creates the table `name` unless it exists: a primary
/// key `id`, then one column for each of `fields`.
pub open spec fn create_table_text(name: Seq<char>, fields: Seq<FieldSpec>) -> Seq<char> {
    let head = "CREATE TABLE IF NOT EXISTS "@ + name + "(id INTEGER PRIMARY KEY AUTOINCREMENT"@;
    if fields.len() == 0 {
        head + ");"@
    } else {
        head + ", "@ + columns_text(fields) + ");"@
    }
}

impl TableConfig {
    /// The descriptor of the table `table_name` with the fields `fields`.
    pub fn with_fields(table_name: &str, fields: Vec<FieldSpec>) -> (r: Self)
        ensures
            r.table_name@ == table_name@,
            r.fields == fields,
    {
        TableConfig { table_name: String::from_str(table_name), fields }
    }

    /// The statement that creates the table unless it exists.
    pub fn create_statement(&self) -> (s: String)
        ensures
            s@ == create_table_text(self.table_name@, self.fields@),
    {
        let mut s = String::from_str("CREATE TABLE IF NOT EXISTS ");
        s.append(self.table_name.as_str());
        s.append("(id INTEGER PRIMARY KEY AUTOINCREMENT");
        if self.fields.len() > 0 {
            let ghost head = s@;
            s.append(", ");
            let mut i: usize = 0;
            while i < self.fields.len()
                invariant
                    i <= self.fields@.len(),
                    s@ == head + ", "@ + columns_text(self.fields@.take(i as int)),
                decreases self.fields@.len() - i,
            {
                let ghost before = self.fields@.take(i as int);
                let ghost after = self.fields@.take(i + 1);
                assert(after.drop_last() == before);
                assert(after.last() == self.fields@[i as int]);
                if i > 0 {
                    s.append(",");
                }
                s.append(self.fields[i].name.as_str());
                s.append(" ");
                s.append(self.fields[i].kind.sql_type());
                proof {
                    let column = self.fields@[i as int].column();
                    if i == 0 {
                        assert(columns_text(before) == Seq::<char>::empty());
                        assert(columns_text(after) == column);
                        assert(s@ =~= head + ", "@ + column);
                    } else {
                        assert(columns_text(after) == columns_text(before) + ","@ + column);
                        assert(s@ =~= head + ", "@ + (columns_text(before) + ","@ + column));
                    }
                }
                i += 1;
            }
            assert(self.fields@.take(i as int) == self.fields@);
            s.append(");");
        } else {
            s.append(");");
        }
        s
    }
}

} // verus!

//! The table names of the SQL session stores, and their validation.
use vstd::prelude::*;
use vstd::string::StringExecFns;

verus! {

/// Whether `char::is_alphabetic` holds of `c` (the Unicode `Alphabetic` property).
pub uninterp spec fn unicode_alphabetic(c: char) -> bool;

/// Whether `c` is an ASCII letter: `A`-`Z` (65-90) or `a`-`z` (97-122).
pub open spec fn ascii_letter(c: char) -> bool {
    ||| 65 <= c as u32 <= 90
    ||| 97 <= c as u32 <= 122
}

/// Whether `c` is an ASCII digit, `0`-`9` (48-57).
pub open spec fn ascii_digit(c: char) -> bool {
    48 <= c as u32 <= 57
}

/// `char::is_alphabetic`.
///
/// Trusted: the result is the character's Unicode `Alphabetic` property; among the ASCII
/// characters, the letters `A`-`Z` and `a`-`z` have it and no other does.
#[verifier::external_body]
fn is_alphabetic(c: char) -> (b: bool)
    ensures
        b == unicode_alphabetic(c),
        (c as u32) < 128 ==> (b == ascii_letter(c)),
{
    c.is_alphabetic()
}

/// A valid PostgreSQL identifier: it starts with a letter (letters with diacritical marks and
/// non-Latin letters included) or an underscore, and every later character is a letter, an
/// underscore, a digit 0-9 or a dollar sign.
pub open spec fn valid_identifier(name: Seq<char>) -> bool {
    &&& name.len() > 0
    &&& (unicode_alphabetic(name[0]) || name[0] == '_')
    &&& forall|i: int|
        0 <= i < name.len() ==> #[trigger] identifier_char(name[i])
}

/// Whether `c` may stand in a PostgreSQL identifier after its first character: a letter, an
/// underscore, a digit 0-9 or a dollar sign.
pub open spec fn identifier_char(c: char) -> bool {
    unicode_alphabetic(c) || ascii_digit(c) || c == '_' || c == '$'
}

/// Whether `c` is an ASCII letter or digit: `0`-`9` (48-57), `A`-`Z` (65-90), `a`-`z`
/// (97-122).
pub open spec fn ascii_alphanumeric(c: char) -> bool {
    ||| 48 <= c as u32 <= 57
    ||| 65 <= c as u32 <= 90
    ||| 97 <= c as u32 <= 122
}

/// A valid table name: not empty, and made of ASCII letters, digits, hyphens and underscores.
pub open spec fn valid_table_name(name: Seq<char>) -> bool {
    &&& name.len() > 0
    &&& forall|i: int|
        0 <= i < name.len() ==> #[trigger] ascii_alphanumeric(name[i]) || name[i] == '-' || name[i] == '_'
}

/// Whether `name` is a valid PostgreSQL identifier: it starts with a letter (letters with
/// diacritical marks and non-Latin letters included) or an underscore, and subsequent
/// characters are letters, underscores, digits (0-9) or dollar signs ($).
pub fn is_valid_identifier(name: &str) -> (valid: bool)
    ensures
        valid == valid_identifier(name@),
        // Among the ASCII characters of the name, the letters are exactly `A`-`Z` and `a`-`z`.
        forall|i: int|
            0 <= i < name@.len() && (name@[i] as u32) < 128 ==> (#[trigger] unicode_alphabetic(name@[i])
                == ascii_letter(name@[i])),
{
    let mut first = true;
    let mut starts_well = false;
    let mut all_allowed = true;
    for c in it: name.chars()
        invariant
            it.seq() == name@,
            first == (it.index() == 0),
            it.index() > 0 ==> starts_well == (unicode_alphabetic(name@[0]) || name@[0] == '_'),
            all_allowed == forall|i: int|
                0 <= i < it.index() ==> #[trigger] identifier_char(name@[i]),
            forall|i: int|
                0 <= i < it.index() && (name@[i] as u32) < 128 ==> (#[trigger] unicode_alphabetic(name@[i])
                    == ascii_letter(name@[i])),
    {
        let letter = is_alphabetic(c);
        if first {
            starts_well = letter || c == '_';
            first = false;
        }
        let code = c as u32;
        let allowed = letter || (48 <= code && code <= 57) || c == '_' || c == '$';
        assert(allowed == identifier_char(c));
        all_allowed = all_allowed && allowed;
    }
    !first && starts_well && all_allowed
}

/// Whether `name` is a valid table name: not empty, and made of ASCII letters, digits,
/// hyphens and underscores.
pub fn is_valid_table_name(name: &str) -> (valid: bool)
    ensures
        valid == valid_table_name(name@),
{
    let mut any = false;
    let mut all_allowed = true;
    for c in it: name.chars()
        invariant
            it.seq() == name@,
            any == (it.index() > 0),
            all_allowed == forall|i: int|
                0 <= i < it.index() ==> #[trigger] ascii_alphanumeric(name@[i]) || name@[i] == '-'
                    || name@[i] == '_',
    {
        let code = c as u32;
        let allowed = (48 <= code && code <= 57) || (65 <= code && code <= 90) || (97 <= code
            && code <= 122) || c == '-' || c == '_';
        assert(allowed == (ascii_alphanumeric(c) || c == '-' || c == '_'));
        any = true;
        all_allowed = all_allowed && allowed;
    }
    any && all_allowed
}

/// The schema and table that a PostgreSQL session store keeps sessions in.
#[derive(Debug, Clone, PartialEq, Eq)]
pub struct PostgresTable {
    schema_name: String,
    table_name: String,
}

/// The message refusing `name` as a PostgreSQL identifier; `kind` is `"schema"` or `"table"`
/// and `kinds` its capitalised plural.
pub open spec fn invalid_identifier_message(kind: Seq<char>, kinds: Seq<char>, name: Seq<char>) -> Seq<char> {
    "Invalid "@ + kind + " name '"@ + name + "'. "@ + kinds
        + " must start with a letter or underscore (including letters with diacritical marks and non-Latin letters).Subsequent characters can be letters, underscores, digits (0-9), or dollar signs ($)."@
}

fn identifier_message(kind: &str, kinds: &str, name: &str) -> (message: String)
    ensures
        message@ == invalid_identifier_message(kind@, kinds@, name@),
{
    let mut message = String::from_str("Invalid ");
    message.append(kind);
    message.append(" name '");
    message.append(name);
    message.append("'. ");
    message.append(kinds);
    message.append(
        " must start with a letter or underscore (including letters with diacritical marks and non-Latin letters).Subsequent characters can be letters, underscores, digits (0-9), or dollar signs ($).",
    );
    message
}

impl PostgresTable {
    /// The schema name.
    pub closed spec fn spec_schema_name(self) -> Seq<char> {
        self.schema_name@
    }

    /// The table name.
    pub closed spec fn spec_table_name(self) -> Seq<char> {
        self.table_name@
    }

    /// The default: table `session` in schema `tower_sessions`.
    pub fn new() -> (names: Self)
        ensures
            names.spec_schema_name() == "tower_sessions"@,
            names.spec_table_name() == "session"@,
    {
        PostgresTable {
            schema_name: String::from_str("tower_sessions"),
            table_name: String::from_str("session"),
        }
    }

    /// The schema name.
    pub fn schema_name(&self) -> (name: &str)
        ensures
            name@ == self.spec_schema_name(),
    {
        self.schema_name.as_str()
    }

    /// The table name.
    pub fn table_name(&self) -> (name: &str)
        ensures
            name@ == self.spec_table_name(),
    {
        self.table_name.as_str()
    }

    /// Sets the schema name; refuses a name that is not a valid identifier.
    pub fn with_schema_name(self, schema_name: &str) -> (result: Result<Self, String>)
        ensures
            valid_identifier(schema_name@) ==> (result matches Ok(names)
                && names.spec_schema_name() == schema_name@
                && names.spec_table_name() == self.spec_table_name()),
            !valid_identifier(schema_name@) ==> (result matches Err(message)
                && message@ == invalid_identifier_message("schema"@, "Schema names"@, schema_name@)),
    {
        if !is_valid_identifier(schema_name) {
            return Err(identifier_message("schema", "Schema names", schema_name));
        }
        let mut names = self;
        names.schema_name = String::from_str(schema_name);
        Ok(names)
    }

    /// Sets the table name; refuses a name that is not a valid identifier.
    pub fn with_table_name(self, table_name: &str) -> (result: Result<Self, String>)
        ensures
            valid_identifier(table_name@) ==> (result matches Ok(names)
                && names.spec_table_name() == table_name@
                && names.spec_schema_name() == self.spec_schema_name()),
            !valid_identifier(table_name@) ==> (result matches Err(message)
                && message@ == invalid_identifier_message("table"@, "Table names"@, table_name@)),
    {
        if !is_valid_identifier(table_name) {
            return Err(identifier_message("table", "Table names", table_name));
        }
        let mut names = self;
        names.table_name = String::from_str(table_name);
        Ok(names)
    }
}

/// The table that a SQLite session store keeps sessions in.
#[derive(Debug, Clone, PartialEq, Eq)]
pub struct SqliteTable {
    table_name: String,
}

/// The message refusing `name` as a SQLite table name.
pub open spec fn invalid_table_name_message(name: Seq<char>) -> Seq<char> {
    "Invalid table name '"@ + name
        + "'. Table names must be alphanumeric and may contain hyphens or underscores."@
}

impl SqliteTable {
    /// The table name.
    pub closed spec fn spec_table_name(self) -> Seq<char> {
        self.table_name@
    }

    /// The default: table `tower_sessions`.
    pub fn new() -> (names: Self)
        ensures
            names.spec_table_name() == "tower_sessions"@,
    {
        SqliteTable { table_name: String::from_str("tower_sessions") }
    }

    /// The table name.
    pub fn table_name(&self) -> (name: &str)
        ensures
            name@ == self.spec_table_name(),
    {
        self.table_name.as_str()
    }

    /// Sets the table name; refuses a name that is not a valid table name.
    pub fn with_table_name(self, table_name: &str) -> (result: Result<Self, String>)
        ensures
            valid_table_name(table_name@) ==> (result matches Ok(names) && names.spec_table_name()
                == table_name@),
            !valid_table_name(table_name@) ==> (result matches Err(message) && message@
                == invalid_table_name_message(table_name@)),
    {
        if !is_valid_table_name(table_name) {
            let mut message = String::from_str("Invalid table name '");
            message.append(table_name);
            message.append(
                "'. Table names must be alphanumeric and may contain hyphens or underscores.",
            );
            return Err(message);
        }
        Ok(SqliteTable { table_name: String::from_str(table_name) })
    }
}

} // verus!

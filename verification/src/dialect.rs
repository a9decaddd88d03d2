//! SQL dialects and their identifier quoting.

use crate::error::ModelError;
use crate::text::text_of;
use vstd::prelude::*;
use vstd::string::*;

verus! {

/// The SQL dialects for which statements can be generated.
#[derive(Clone, Copy, Debug, PartialEq, Eq, Structural)]
pub enum DbType {
    Any,
    MsSql,
    MySql,
    Postgres,
    Sqlite,
}

impl DbType {
    /// The character that opens and closes a quoted identifier: a back-tick
    /// for MySQL, a double quote for every other dialect.
    pub open spec fn quote_char(self) -> char {
        if self == DbType::MySql {
            '`'
        } else {
            '"'
        }
    }

    /// An identifier wrapped in the dialect's quote character. Quote
    /// characters inside the identifier are not escaped.
    pub open spec fn quoted(self, ident: Seq<char>) -> Seq<char> {
        seq![self.quote_char()] + ident + seq![self.quote_char()]
    }

    /// Quotes an identifier for this dialect.
    pub fn quote_ident(&self, ident: &str) -> (text: String)
        ensures
            text@ == self.quoted(ident@),
    {
        let mark: &str = match self {
            DbType::MySql => "`",
            _ => "\"",
        };
        proof {
            reveal_strlit("`");
            reveal_strlit("\"");
            assert(mark@ =~= seq![self.quote_char()]);
        }
        let mut text = String::from_str(mark);
        text.append(ident);
        text.append(mark);
        text
    }

    /// The dialect that a tag names, if it names one. Tags are case
    /// sensitive.
    pub open spec fn of_tag(tag: Seq<char>) -> Option<DbType> {
        if tag == "Any"@ {
            Some(DbType::Any)
        } else if tag == "MsSql"@ {
            Some(DbType::MsSql)
        } else if tag == "MySql"@ {
            Some(DbType::MySql)
        } else if tag == "Postgres"@ {
            Some(DbType::Postgres)
        } else if tag == "Sqlite"@ {
            Some(DbType::Sqlite)
        } else {
            None
        }
    }

    /// The tag that names this dialect.
    pub open spec fn tag_text(self) -> Seq<char> {
        match self {
            DbType::Any => "Any"@,
            DbType::MsSql => "MsSql"@,
            DbType::MySql => "MySql"@,
            DbType::Postgres => "Postgres"@,
            DbType::Sqlite => "Sqlite"@,
        }
    }

    /// The dialect chosen by an optional annotation: SQLite without one,
    /// otherwise the dialect that the tag names.
    pub open spec fn of_annotation(tag: Option<Seq<char>>) -> Option<DbType> {
        match tag {
            None => Some(DbType::Sqlite),
            Some(t) => DbType::of_tag(t),
        }
    }

    /// Reads a dialect tag. A tag that names no dialect is an error.
    pub fn from_tag(tag: &str) -> (parsed: Result<DbType, ModelError>)
        ensures
            parsed == match DbType::of_tag(tag@) {
                Some(d) => Ok::<DbType, ModelError>(d),
                None => Err::<DbType, ModelError>(ModelError::UnknownDialect),
            },
    {
        if tag.eq("Any") {
            Ok(DbType::Any)
        } else if tag.eq("MsSql") {
            Ok(DbType::MsSql)
        } else if tag.eq("MySql") {
            Ok(DbType::MySql)
        } else if tag.eq("Postgres") {
            Ok(DbType::Postgres)
        } else if tag.eq("Sqlite") {
            Ok(DbType::Sqlite)
        } else {
            Err(ModelError::UnknownDialect)
        }
    }

    /// Reads an optional dialect annotation: SQLite when there is none.
    pub fn from_annotation(tag: Option<&str>) -> (parsed: Result<DbType, ModelError>)
        ensures
            parsed == match DbType::of_annotation(text_of(tag)) {
                Some(d) => Ok::<DbType, ModelError>(d),
                None => Err::<DbType, ModelError>(ModelError::UnknownDialect),
            },
    {
        match tag {
            Some(t) => DbType::from_tag(t),
            None => Ok(DbType::Sqlite),
        }
    }

    /// The name of the database family that a data-access layer selects
    /// its driver by.
    pub open spec fn driver_text(self) -> Seq<char> {
        match self {
            DbType::Any => "Any"@,
            DbType::MsSql => "Mssql"@,
            DbType::MySql => "MySql"@,
            DbType::Postgres => "Postgres"@,
            DbType::Sqlite => "Sqlite"@,
        }
    }

    /// The name of the database family of this dialect.
    pub fn driver(&self) -> (name: &'static str)
        ensures
            name@ == self.driver_text(),
    {
        match self {
            DbType::Any => "Any",
            DbType::MsSql => "Mssql",
            DbType::MySql => "MySql",
            DbType::Postgres => "Postgres",
            DbType::Sqlite => "Sqlite",
        }
    }

    /// Every dialect is named by its own tag.
    pub proof fn lemma_tag_round_trip(d: DbType)
        ensures
            DbType::of_tag(d.tag_text()) == Some(d),
    {
        reveal_strlit("Any");
        reveal_strlit("MsSql");
        reveal_strlit("MySql");
        reveal_strlit("Postgres");
        reveal_strlit("Sqlite");
        assert("Any"@.len() == 3);
        assert("MsSql"@[1] == 's');
        assert("MySql"@[1] == 'y');
        assert("Postgres"@.len() == 8);
        assert("Sqlite"@.len() == 6);
    }
}

impl Default for DbType {
    /// SQLite is the dialect of a record type that names none.
    fn default() -> (d: DbType)
        ensures
            d == DbType::Sqlite,
    {
        DbType::Sqlite
    }
}

} // verus!

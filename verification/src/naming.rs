//! Naming conventions: from a type's name to the names used in SQL.

use vstd::prelude::*;
use vstd::string::*;

verus! {

/// The snake-case form of a name, as the `Inflector` crate computes it:
/// words in lower case, separated by underscores (`UserAccount` becomes
/// `user_account`). The conversion is Inflector's; this is only its name.
pub uninterp spec fn snake_case(name: Seq<char>) -> Seq<char>;

/// The screaming-snake-case form of a name, as the `Inflector` crate
/// computes it: words in upper case, separated by underscores
/// (`UserAccount` becomes `USER_ACCOUNT`). The conversion is Inflector's;
/// this is only its name.
pub uninterp spec fn screaming_snake_case(name: Seq<char>) -> Seq<char>;

/// Assumed of `inflector::cases::snakecase::to_snake_case`, and not proved
/// here: it returns for every argument, and its result depends on the
/// argument's characters alone, so that `snake_case` can stand for it.
/// Nothing is claimed of what the result looks like.
pub assume_specification[ inflector::cases::snakecase::to_snake_case ](
    non_snake_case_string: &str,
) -> (converted: String)
    ensures
        converted@ == snake_case(non_snake_case_string@),
;

/// Assumed of `inflector::cases::screamingsnakecase::to_screaming_snake_case`,
/// and not proved here: it returns for every argument, and its result
/// depends on the argument's characters alone, so that
/// `screaming_snake_case` can stand for it. Nothing is claimed of what the
/// result looks like.
pub assume_specification[ inflector::cases::screamingsnakecase::to_screaming_snake_case ](
    non_snake_case_string: &str,
) -> (converted: String)
    ensures
        converted@ == screaming_snake_case(non_snake_case_string@),
;

/// The table of a record type is named by the snake-case form of the type's
/// name. Nothing is made plural.
pub fn table_name(record_name: &str) -> (table: String)
    ensures
        table@ == snake_case(record_name@),
{
    inflector::cases::snakecase::to_snake_case(record_name)
}

/// The name under which the metadata of a record type is published: the
/// screaming-snake-case form of the type's name, followed by `_SCHEMA`.
pub open spec fn schema_name_of(record_name: Seq<char>) -> Seq<char> {
    screaming_snake_case(record_name) + "_SCHEMA"@
}

/// Appends `_SCHEMA` to the upper-case form of a record's name.
pub fn with_schema_suffix(upper_name: String) -> (name: String)
    ensures
        name@ == upper_name@ + "_SCHEMA"@,
{
    let mut name = upper_name;
    name.append("_SCHEMA");
    name
}

/// The name under which the metadata of a record type is published.
pub fn schema_name(record_name: &str) -> (name: String)
    ensures
        name@ == schema_name_of(record_name@),
{
    with_schema_suffix(
        inflector::cases::screamingsnakecase::to_screaming_snake_case(record_name),
    )
}

} // verus!

//! Derivation of public-facing names: applying a configured casing rule to a
//! declared identifier. The casing transforms themselves are done by an
//! outside crate; what they return is named by `cased`, except for the rules
//! that return a (snake_case) name unchanged, which is stated directly.
use crate::config::RenameRule;
use vstd::prelude::*;
use vstd::string::StrSliceExecFns;

verus! {

/// What the outside casing transform returns for a non-identity rule
/// (numbered by `rule_id`) on a given name.
pub uninterp spec fn cased(rule: int, s: Seq<char>) -> Seq<char>;

/// Numbers the casing rules, for `cased`.
pub open spec fn rule_id(rule: RenameRule) -> int {
    match rule {
        RenameRule::Identity => 0,
        RenameRule::Lower => 1,
        RenameRule::Pascal => 2,
        RenameRule::Camel => 3,
        RenameRule::Snake => 4,
        RenameRule::ScreamingSnake => 5,
        RenameRule::Kebab => 6,
    }
}

/// The derived public name of a declared name under a casing rule. The
/// identity, lowercase and snake_case rules return a field-style name
/// unchanged; the rest are the outside transform's result.
pub open spec fn rename_spec(rule: RenameRule, s: Seq<char>) -> Seq<char> {
    match rule {
        RenameRule::Identity | RenameRule::Lower | RenameRule::Snake => s,
        _ => cased(rule_id(rule), s),
    }
}

/// The camelCase transform needs at least one character besides underscores
/// to pick the initial letter from.
pub open spec fn camel_ok(s: Seq<char>) -> bool {
    exists|i: int| 0 <= i < s.len() && s[i] != '_'
}

/// Tests whether a name has a character besides underscores.
pub fn camel_ok_exec(s: &str) -> (r: bool)
    ensures
        r == camel_ok(s@),
{
    let n = s.unicode_len();
    let mut i: usize = 0;
    while i < n
        invariant
            n == s@.len(),
            0 <= i <= n,
            forall|j: int| 0 <= j < i ==> s@[j] == '_',
        decreases n - i,
    {
        if s.get_char(i) != '_' {
            return true;
        }
        i += 1;
    }
    false
}

/// Tests whether a casing rule can be applied to a name: only the
/// camelCase rule constrains its input.
pub fn rule_applies(rule: &RenameRule, s: &str) -> (r: bool)
    ensures
        r == crate::assemble::name_rename_ok(*rule, s@),
{
    if matches!(rule, RenameRule::Camel) {
        s.is_ascii() && camel_ok_exec(s)
    } else {
        true
    }
}

/// Relies on ident_case::RenameRule::apply_to_field: the result is a
/// function of the rule and the name's characters alone, and the None,
/// LowerCase and SnakeCase rules return the name unchanged. The CamelCase
/// rule byte-slices the capitalized name behind its first character, so it
/// is only called on ASCII names with a character besides underscores.
#[verifier::external_body]
pub(crate) fn rename_ident(rule: &RenameRule, s: &str) -> (r: String)
    requires
        *rule is Camel ==> vstd::utf8::is_ascii_chars(s@) && camel_ok(s@),
    ensures
        r@ == rename_spec(*rule, s@),
        !(*rule is Identity || *rule is Lower || *rule is Snake) ==> r@ == cased(
            rule_id(*rule),
            s@,
        ),
{
    let ic = match rule {
        RenameRule::Identity => ident_case::RenameRule::None,
        RenameRule::Lower => ident_case::RenameRule::LowerCase,
        RenameRule::Pascal => ident_case::RenameRule::PascalCase,
        RenameRule::Camel => ident_case::RenameRule::CamelCase,
        RenameRule::Snake => ident_case::RenameRule::SnakeCase,
        RenameRule::ScreamingSnake => ident_case::RenameRule::ScreamingSnakeCase,
        RenameRule::Kebab => ident_case::RenameRule::KebabCase,
    };
    ic.apply_to_field(s)
}

} // verus!

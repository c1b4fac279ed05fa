//! The generator's configuration attribute: recognized keys, their values,
//! and the parser that turns the attribute's argument list into a
//! `Config` or a descriptive error.
//!
//! Recognized keys:
//!   - `rename_funcs = "<rule>"`, `rename_fields = "<rule>"` with a casing
//!     rule out of a fixed set of names;
//!   - `pub_only`, `no_auto_fields` as bare flags.
//!
//! Unset keys take defaults: identity renaming, no visibility filter, field
//! inference enabled. Unknown keys, repeated keys and malformed values fail
//! the parse as a whole.
use crate::strutil::str_eq;
use vstd::prelude::*;

verus! {

/// A casing rule for derived public names; `Identity` leaves a name as it is.
#[derive(Clone, Copy, PartialEq, Eq, Structural, Debug)]
pub enum RenameRule {
    Identity,
    Lower,
    Pascal,
    Camel,
    Snake,
    ScreamingSnake,
    Kebab,
}

/// The parsed configuration of one generator invocation.
#[derive(Clone, Copy, PartialEq, Eq, Structural, Debug)]
pub struct Config {
    pub rename_funcs: RenameRule,
    pub rename_fields: RenameRule,
    pub pub_only: bool,
    pub no_auto_fields: bool,
}

impl Default for Config {
    /// Identity renaming, no visibility filter, field inference enabled.
    fn default() -> (c: Config)
        ensures
            c == (Config {
                rename_funcs: RenameRule::Identity,
                rename_fields: RenameRule::Identity,
                pub_only: false,
                no_auto_fields: false,
            }),
    {
        Config {
            rename_funcs: RenameRule::Identity,
            rename_fields: RenameRule::Identity,
            pub_only: false,
            no_auto_fields: false,
        }
    }
}

/// The value attached to one attribute argument: a bare word, a string
/// value, or any other form (which no recognized key accepts).
#[derive(Clone, Debug)]
pub enum AttrValue {
    Word,
    Str(String),
    Other,
}

pub ghost enum AttrValueView {
    Word,
    Str(Seq<char>),
    Other,
}

impl View for AttrValue {
    type V = AttrValueView;

    open spec fn view(&self) -> AttrValueView {
        match self {
            AttrValue::Word => AttrValueView::Word,
            AttrValue::Str(s) => AttrValueView::Str(s@),
            AttrValue::Other => AttrValueView::Other,
        }
    }
}

/// One argument of the configuration attribute: a key and its value form.
#[derive(Clone, Debug)]
pub struct AttrArg {
    pub key: String,
    pub value: AttrValue,
}

pub ghost struct AttrArgView {
    pub key: Seq<char>,
    pub value: AttrValueView,
}

impl View for AttrArg {
    type V = AttrArgView;

    open spec fn view(&self) -> AttrArgView {
        AttrArgView { key: self.key@, value: self.value@ }
    }
}

/// Why a configuration attribute was rejected; each variant carries the
/// offending key or value.
#[derive(Clone, Debug)]
pub enum ConfigError {
    UnknownKey(String),
    DuplicateKey(String),
    BadValue(String),
    UnknownRule(String),
}

pub ghost enum ConfigErrorView {
    UnknownKey(Seq<char>),
    DuplicateKey(Seq<char>),
    BadValue(Seq<char>),
    UnknownRule(Seq<char>),
}

impl View for ConfigError {
    type V = ConfigErrorView;

    open spec fn view(&self) -> ConfigErrorView {
        match self {
            ConfigError::UnknownKey(s) => ConfigErrorView::UnknownKey(s@),
            ConfigError::DuplicateKey(s) => ConfigErrorView::DuplicateKey(s@),
            ConfigError::BadValue(s) => ConfigErrorView::BadValue(s@),
            ConfigError::UnknownRule(s) => ConfigErrorView::UnknownRule(s@),
        }
    }
}

/// The casing rule a value string names, if any.
pub open spec fn spec_rule_of_str(s: Seq<char>) -> Option<RenameRule> {
    if s == "lowercase"@ {
        Option::Some(RenameRule::Lower)
    } else if s == "PascalCase"@ {
        Option::Some(RenameRule::Pascal)
    } else if s == "camelCase"@ {
        Option::Some(RenameRule::Camel)
    } else if s == "snake_case"@ {
        Option::Some(RenameRule::Snake)
    } else if s == "SCREAMING_SNAKE_CASE"@ {
        Option::Some(RenameRule::ScreamingSnake)
    } else if s == "kebab-case"@ {
        Option::Some(RenameRule::Kebab)
    } else {
        Option::None
    }
}

/// Looks a casing rule up by its configured name.
pub fn rule_of_str(s: &str) -> (r: Option<RenameRule>)
    ensures
        r == spec_rule_of_str(s@),
{
    if str_eq(s, "lowercase") {
        Option::Some(RenameRule::Lower)
    } else if str_eq(s, "PascalCase") {
        Option::Some(RenameRule::Pascal)
    } else if str_eq(s, "camelCase") {
        Option::Some(RenameRule::Camel)
    } else if str_eq(s, "snake_case") {
        Option::Some(RenameRule::Snake)
    } else if str_eq(s, "SCREAMING_SNAKE_CASE") {
        Option::Some(RenameRule::ScreamingSnake)
    } else if str_eq(s, "kebab-case") {
        Option::Some(RenameRule::Kebab)
    } else {
        Option::None
    }
}

/// The parser's running state: the configuration so far, and which keys have
/// already been set.
#[derive(Clone, Copy, PartialEq, Eq, Structural, Debug)]
pub struct ParseState {
    pub cfg: Config,
    pub seen_funcs: bool,
    pub seen_fields: bool,
    pub seen_pub: bool,
    pub seen_auto: bool,
}

pub open spec fn init_parse_state() -> ParseState {
    ParseState {
        cfg: Config {
            rename_funcs: RenameRule::Identity,
            rename_fields: RenameRule::Identity,
            pub_only: false,
            no_auto_fields: false,
        },
        seen_funcs: false,
        seen_fields: false,
        seen_pub: false,
        seen_auto: false,
    }
}

/// One parsing step: fold the next attribute argument into the state, or
/// reject it.
pub open spec fn parse_step(st: ParseState, a: AttrArgView) -> Result<ParseState, ConfigErrorView> {
    if a.key == "rename_funcs"@ {
        if st.seen_funcs {
            Result::Err(ConfigErrorView::DuplicateKey(a.key))
        } else {
            match a.value {
                AttrValueView::Str(s) => match spec_rule_of_str(s) {
                    Option::Some(r) => Result::Ok(
                        ParseState {
                            cfg: Config { rename_funcs: r, ..st.cfg },
                            seen_funcs: true,
                            ..st
                        },
                    ),
                    Option::None => Result::Err(ConfigErrorView::UnknownRule(s)),
                },
                _ => Result::Err(ConfigErrorView::BadValue(a.key)),
            }
        }
    } else if a.key == "rename_fields"@ {
        if st.seen_fields {
            Result::Err(ConfigErrorView::DuplicateKey(a.key))
        } else {
            match a.value {
                AttrValueView::Str(s) => match spec_rule_of_str(s) {
                    Option::Some(r) => Result::Ok(
                        ParseState {
                            cfg: Config { rename_fields: r, ..st.cfg },
                            seen_fields: true,
                            ..st
                        },
                    ),
                    Option::None => Result::Err(ConfigErrorView::UnknownRule(s)),
                },
                _ => Result::Err(ConfigErrorView::BadValue(a.key)),
            }
        }
    } else if a.key == "pub_only"@ {
        if st.seen_pub {
            Result::Err(ConfigErrorView::DuplicateKey(a.key))
        } else {
            match a.value {
                AttrValueView::Word => Result::Ok(
                    ParseState { cfg: Config { pub_only: true, ..st.cfg }, seen_pub: true, ..st },
                ),
                _ => Result::Err(ConfigErrorView::BadValue(a.key)),
            }
        }
    } else if a.key == "no_auto_fields"@ {
        if st.seen_auto {
            Result::Err(ConfigErrorView::DuplicateKey(a.key))
        } else {
            match a.value {
                AttrValueView::Word => Result::Ok(
                    ParseState {
                        cfg: Config { no_auto_fields: true, ..st.cfg },
                        seen_auto: true,
                        ..st
                    },
                ),
                _ => Result::Err(ConfigErrorView::BadValue(a.key)),
            }
        }
    } else {
        Result::Err(ConfigErrorView::UnknownKey(a.key))
    }
}

/// Folds the remaining arguments into the state; the first rejection wins.
pub open spec fn parse_from(st: ParseState, args: Seq<AttrArgView>) -> Result<
    ParseState,
    ConfigErrorView,
>
    decreases args.len(),
{
    if args.len() == 0 {
        Result::Ok(st)
    } else {
        match parse_step(st, args[0]) {
            Result::Ok(st2) => parse_from(st2, args.drop_first()),
            Result::Err(e) => Result::Err(e),
        }
    }
}

/// What parsing the whole argument list yields: a configuration exactly when
/// every argument is a recognized, well-formed, unrepeated key.
pub open spec fn spec_parse_config(args: Seq<AttrArgView>) -> Result<Config, ConfigErrorView> {
    match parse_from(init_parse_state(), args) {
        Result::Ok(st) => Result::Ok(st.cfg),
        Result::Err(e) => Result::Err(e),
    }
}

pub open spec fn attr_views(args: Seq<AttrArg>) -> Seq<AttrArgView> {
    args.map_values(|a: AttrArg| a@)
}

/// Parses the configuration attribute's argument list.
///
/// Returns the configuration exactly when every argument is recognized and
/// well formed; otherwise returns the first offending argument's error.
pub fn parse_config(args: &Vec<AttrArg>) -> (r: Result<Config, ConfigError>)
    ensures
        match r {
            Result::Ok(cfg) => spec_parse_config(attr_views(args@)) == Result::<
                Config,
                ConfigErrorView,
            >::Ok(cfg),
            Result::Err(e) => spec_parse_config(attr_views(args@)) == Result::<
                Config,
                ConfigErrorView,
            >::Err(e@),
        },
{
    let ghost all = attr_views(args@);
    let mut st = ParseState {
        cfg: Config {
            rename_funcs: RenameRule::Identity,
            rename_fields: RenameRule::Identity,
            pub_only: false,
            no_auto_fields: false,
        },
        seen_funcs: false,
        seen_fields: false,
        seen_pub: false,
        seen_auto: false,
    };
    let mut i: usize = 0;
    proof {
        assert(all.subrange(0, all.len() as int) =~= all);
    }
    while i < args.len()
        invariant
            0 <= i <= args.len(),
            all == attr_views(args@),
            all.len() == args.len(),
            forall|j: int| 0 <= j < all.len() ==> all[j] == #[trigger] args@[j]@,
            parse_from(init_parse_state(), all) == parse_from(
                st,
                all.subrange(i as int, all.len() as int),
            ),
        decreases args.len() - i,
    {
        let a = &args[i];
        proof {
            assert(all.subrange(i as int, all.len() as int)[0] == a@);
        }
        let key = &a.key;
        if str_eq(key.as_str(), "rename_funcs") {
            if st.seen_funcs {
                return Result::Err(ConfigError::DuplicateKey(key.clone()));
            }
            match &a.value {
                AttrValue::Str(s) => match rule_of_str(s.as_str()) {
                    Option::Some(r) => {
                        st.cfg.rename_funcs = r;
                        st.seen_funcs = true;
                    },
                    Option::None => {
                        return Result::Err(ConfigError::UnknownRule(s.clone()));
                    },
                },
                _ => {
                    return Result::Err(ConfigError::BadValue(key.clone()));
                },
            }
        } else if str_eq(key.as_str(), "rename_fields") {
            if st.seen_fields {
                return Result::Err(ConfigError::DuplicateKey(key.clone()));
            }
            match &a.value {
                AttrValue::Str(s) => match rule_of_str(s.as_str()) {
                    Option::Some(r) => {
                        st.cfg.rename_fields = r;
                        st.seen_fields = true;
                    },
                    Option::None => {
                        return Result::Err(ConfigError::UnknownRule(s.clone()));
                    },
                },
                _ => {
                    return Result::Err(ConfigError::BadValue(key.clone()));
                },
            }
        } else if str_eq(key.as_str(), "pub_only") {
            if st.seen_pub {
                return Result::Err(ConfigError::DuplicateKey(key.clone()));
            }
            match &a.value {
                AttrValue::Word => {
                    st.cfg.pub_only = true;
                    st.seen_pub = true;
                },
                _ => {
                    return Result::Err(ConfigError::BadValue(key.clone()));
                },
            }
        } else if str_eq(key.as_str(), "no_auto_fields") {
            if st.seen_auto {
                return Result::Err(ConfigError::DuplicateKey(key.clone()));
            }
            match &a.value {
                AttrValue::Word => {
                    st.cfg.no_auto_fields = true;
                    st.seen_auto = true;
                },
                _ => {
                    return Result::Err(ConfigError::BadValue(key.clone()));
                },
            }
        } else {
            return Result::Err(ConfigError::UnknownKey(key.clone()));
        }
        proof {
            assert(all.subrange(i as int, all.len() as int).drop_first() =~= all.subrange(
                i as int + 1,
                all.len() as int,
            ));
        }
        i += 1;
    }
    Result::Ok(st.cfg)
}

} // verus!

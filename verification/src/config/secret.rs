//! Where a credential comes from: nothing, a literal value, or an
//! environment variable.

use vstd::prelude::*;

use crate::error::{CoreError, CoreErrorView};
use crate::text::{chars_of, has_prefix, owned, push_str, string_from_chars, starts_with};

verus! {

/// Secret source for API tokens and similar credentials. Written in a
/// configuration file as `""`, as `"env:NAME"`, or as the literal value.
#[derive(Clone, Debug, PartialEq, Eq)]
pub enum SecretSource {
    Empty,
    Literal(String),
    Env(String),
}

/// `SecretSource` with its strings taken as character sequences.
pub enum SecretView {
    Empty,
    Literal(Seq<char>),
    Env(Seq<char>),
}

impl View for SecretSource {
    type V = SecretView;

    open spec fn view(&self) -> SecretView {
        match self {
            SecretSource::Empty => SecretView::Empty,
            SecretSource::Literal(v) => SecretView::Literal(v@),
            SecretSource::Env(n) => SecretView::Env(n@),
        }
    }
}

/// The prefix that marks an environment-variable source.
pub open spec fn env_prefix() -> Seq<char> {
    seq!['e', 'n', 'v', ':']
}

/// How a configuration string is read as a secret source: `Err` holds the
/// message of the configuration error.
pub open spec fn parse_secret(v: Seq<char>) -> Result<SecretView, Seq<char>> {
    if has_prefix(v, env_prefix()) {
        if v.len() == 4 {
            Err("provider.api_key env source must not be empty"@)
        } else {
            Ok(SecretView::Env(v.subrange(4, v.len() as int)))
        }
    } else if v.len() == 0 {
        Ok(SecretView::Empty)
    } else {
        Ok(SecretView::Literal(v))
    }
}

/// How a secret source is written back into a configuration string.
pub open spec fn secret_text(s: SecretView) -> Seq<char> {
    match s {
        SecretView::Empty => Seq::empty(),
        SecretView::Literal(v) => v,
        SecretView::Env(n) => env_prefix() + n,
    }
}

/// The redacted description of a secret source.
pub open spec fn describe_secret(s: SecretView) -> Seq<char> {
    match s {
        SecretView::Empty => "empty"@,
        SecretView::Literal(_) => "literal"@,
        SecretView::Env(n) => env_prefix() + n,
    }
}

/// What resolving a secret source gives, where `env_value` is the value of
/// its environment variable, if that is set.
pub open spec fn resolve_secret(s: SecretView, env_value: Option<Seq<char>>) -> Result<
    Seq<char>,
    CoreErrorView,
> {
    match s {
        SecretView::Empty => Ok(Seq::empty()),
        SecretView::Literal(v) => Ok(v),
        SecretView::Env(n) => match env_value {
            Some(v) => Ok(v),
            None => Err(CoreErrorView::MissingSecret(env_prefix() + n)),
        },
    }
}

/// `r` is the parse of `v`.
pub open spec fn parsed_as(v: Seq<char>, r: Result<SecretSource, CoreError>) -> bool {
    match parse_secret(v) {
        Ok(s) => r matches Ok(x) && x@ == s,
        Err(m) => r matches Err(e) && e@ == CoreErrorView::InvalidConfig(m),
    }
}

/// `r` is the resolution of `s` when the environment gives `env_value`.
pub open spec fn resolved_as(
    s: SecretView,
    env_value: Option<Seq<char>>,
    r: Result<String, CoreError>,
) -> bool {
    match resolve_secret(s, env_value) {
        Ok(v) => r matches Ok(x) && x@ == v,
        Err(e) => r matches Err(x) && x@ == e,
    }
}

fn env_prefix_chars() -> (v: Vec<char>)
    ensures
        v@ == env_prefix(),
{
    let mut v: Vec<char> = Vec::new();
    v.push('e');
    v.push('n');
    v.push('v');
    v.push(':');
    assert(v@ =~= env_prefix());
    v
}

/// `"env:"` followed by `name`.
fn env_text(name: &str) -> (s: String)
    ensures
        s@ == env_prefix() + name@,
{
    let mut s = String::new();
    let p = env_prefix_chars();
    let ps = string_from_chars(&p, 0, 4);
    assert(p@.subrange(0, 4) == p@);
    push_str(&mut s, ps.as_str());
    push_str(&mut s, name);
    assert(s@ =~= env_prefix() + name@);
    s
}

impl SecretSource {
    /// Returns a redacted description suitable for logs and diagnostics.
    pub fn describe(&self) -> (d: String)
        ensures
            d@ == describe_secret(self@),
    {
        match self {
            SecretSource::Empty => owned("empty"),
            SecretSource::Literal(_) => owned("literal"),
            SecretSource::Env(name) => env_text(name.as_str()),
        }
    }

    /// Reads a configuration string as a secret source.
    pub fn try_from(value: String) -> (r: Result<SecretSource, CoreError>)
        ensures
            parsed_as(value@, r),
    {
        let v = chars_of(value.as_str());
        let p = env_prefix_chars();
        if starts_with(&v, &p) {
            if v.len() == 4 {
                return Err(
                    CoreError::InvalidConfig(owned("provider.api_key env source must not be empty")),
                );
            }
            return Ok(SecretSource::Env(string_from_chars(&v, 4, v.len())));
        }
        if v.len() == 0 {
            return Ok(SecretSource::Empty);
        }
        Ok(SecretSource::Literal(value))
    }

    /// The name of the environment variable to read, for an `Env` source.
    pub fn env_name(&self) -> (n: Option<&String>)
        ensures
            self is Env <==> n is Some,
            n matches Some(name) ==> self@ == SecretView::Env(name@),
    {
        match self {
            SecretSource::Env(name) => Some(name),
            _ => None,
        }
    }

    /// Resolves the secret into a string value, given the value of its
    /// environment variable when that is set. An `Env` source whose variable
    /// is unset is a missing secret.
    pub fn resolve(&self, env_value: Option<String>) -> (r: Result<String, CoreError>)
        ensures
            resolved_as(
                self@,
                match env_value {
                    Some(v) => Some(v@),
                    None => None,
                },
                r,
            ),
    {
        match self {
            SecretSource::Empty => Ok(String::new()),
            SecretSource::Literal(value) => Ok(owned(value.as_str())),
            SecretSource::Env(name) => match env_value {
                Some(v) => Ok(v),
                None => Err(CoreError::MissingSecret { secret_source: env_text(name.as_str()) }),
            },
        }
    }

    /// The configuration string that reads back as this source.
    pub fn to_config_string(self) -> (s: String)
        ensures
            s@ == secret_text(self@),
    {
        match self {
            SecretSource::Empty => String::new(),
            SecretSource::Literal(inner) => inner,
            SecretSource::Env(inner) => env_text(inner.as_str()),
        }
    }
}

/// Every string that reads as a secret source is written back unchanged.
pub proof fn law_secret_text_round_trip(v: Seq<char>)
    requires
        parse_secret(v) is Ok,
    ensures
        secret_text(parse_secret(v)->Ok_0) == v,
{
    if has_prefix(v, env_prefix()) {
        assert(env_prefix() + v.subrange(4, v.len() as int) =~= v);
    }
}

/// A source written into a configuration string reads back as itself,
/// unless it is a literal that begins with `env:` or is empty: those read
/// back as an environment source and as the empty source.
pub proof fn law_secret_parse_round_trip(s: SecretView)
    requires
        s matches SecretView::Env(n) ==> n.len() > 0,
        s matches SecretView::Literal(v) ==> v.len() > 0 && !has_prefix(v, env_prefix()),
    ensures
        parse_secret(secret_text(s)) == Ok::<SecretView, Seq<char>>(s),
{
    if let SecretView::Env(n) = s {
        let t = env_prefix() + n;
        assert(t.subrange(0, 4) =~= env_prefix());
        assert(t.subrange(4, t.len() as int) =~= n);
    }
}

/// The description of a source never shows a literal secret: it names
/// the kind of source, and the variable of an environment source.
pub proof fn law_describe_never_reveals_literal(v: Seq<char>)
    ensures
        describe_secret(SecretView::Literal(v)) == "literal"@,
{
}

/// Resolving gives the secret itself: a literal resolves to its value
/// whatever the environment holds, an empty source to the empty string, and
/// an environment source to its variable's value, or to a missing-secret
/// error naming `env:NAME` when the variable is unset.
pub proof fn law_resolve_gives_the_secret(v: Seq<char>, env_value: Option<Seq<char>>)
    ensures
        resolve_secret(SecretView::Literal(v), env_value) == Ok::<Seq<char>, CoreErrorView>(v),
        resolve_secret(SecretView::Empty, env_value) == Ok::<Seq<char>, CoreErrorView>(
            Seq::empty(),
        ),
        env_value matches Some(x) ==> resolve_secret(SecretView::Env(v), env_value) == Ok::<
            Seq<char>,
            CoreErrorView,
        >(x),
        env_value is None ==> resolve_secret(SecretView::Env(v), env_value) == Err::<
            Seq<char>,
            CoreErrorView,
        >(CoreErrorView::MissingSecret(seq!['e', 'n', 'v', ':'] + v)),
{
}

/// A configuration string that is neither empty nor starts with `env:` is
/// read as a literal, and resolving it gives the string back.
pub proof fn law_literal_key_resolves_to_itself(v: Seq<char>, env_value: Option<Seq<char>>)
    requires
        v.len() > 0,
        !has_prefix(v, seq!['e', 'n', 'v', ':']),
    ensures
        parse_secret(v) == Ok::<SecretView, Seq<char>>(SecretView::Literal(v)),
        resolve_secret(parse_secret(v)->Ok_0, env_value) == Ok::<Seq<char>, CoreErrorView>(v),
{
}

} // verus!

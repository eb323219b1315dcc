//! The one-shot embed command: every field of the embed comes at once as a
//! command option, and the colour option is helped by suggestions.

use vstd::prelude::*;

use crate::artifact::{validate, validity, Artifact, Failure, OptionName, ValidationError};
use crate::catalog::{color_at, color_named, find_key_or_name, ColorKey, CATALOG_LEN};
use crate::components::MAX_CHOICES;
use crate::text::{contains_text, occurs_in, same_text};

verus! {

/// The value an option carried.
#[derive(Clone, Debug, PartialEq, Eq)]
pub enum OptionValue {
    Text(String),
    Flag(bool),
    /// Any other kind of value.
    Other,
}

/// One option of an invocation, by name.
#[derive(Clone, Debug, PartialEq, Eq)]
pub struct CommandOption {
    pub name: String,
    pub value: OptionValue,
}

/// What an invocation asks for: an embed, shown as it is or, for `debug`, as
/// its inner representation.
#[derive(Clone, Debug, PartialEq, Eq)]
pub struct EmbedRequest {
    pub artifact: Artifact,
    pub debug: bool,
}

/// Whether an invocation's locale is British English.
pub open spec fn is_british(locale: Seq<char>) -> bool {
    locale == "en-GB"@
}

/// The request after one more option, or why the option is refused.
pub open spec fn apply_option(r: EmbedRequest, o: CommandOption, british: bool) -> Result<
    EmbedRequest,
    Failure,
> {
    let name = o.name@;
    if name == "title"@ {
        match o.value {
            OptionValue::Text(v) => Ok(
                EmbedRequest { artifact: Artifact { title: Some(v), ..r.artifact }, ..r },
            ),
            _ => Err(Failure::Invalid(ValidationError::NotText(OptionName::Title))),
        }
    } else if name == "description"@ {
        match o.value {
            OptionValue::Text(v) => Ok(
                EmbedRequest { artifact: Artifact { description: Some(v), ..r.artifact }, ..r },
            ),
            _ => Err(Failure::Invalid(ValidationError::NotText(OptionName::Description))),
        }
    } else if name == "url"@ {
        match o.value {
            OptionValue::Text(v) => if r.artifact.title is Some {
                Ok(EmbedRequest { artifact: Artifact { url: Some(v), ..r.artifact }, ..r })
            } else {
                Err(Failure::Invalid(ValidationError::UrlWithoutTitle))
            },
            _ => Err(Failure::Invalid(ValidationError::NotText(OptionName::Url))),
        }
    } else if name == "color"@ {
        match o.value {
            OptionValue::Text(v) => match color_named(v@) {
                Some(k) => Ok(
                    EmbedRequest { artifact: Artifact { color: Some(k), ..r.artifact }, ..r },
                ),
                None => Err(Failure::Invalid(ValidationError::UnknownColor(v))),
            },
            _ => Err(
                Failure::Invalid(
                    ValidationError::NotText(
                        if british {
                            OptionName::Colour
                        } else {
                            OptionName::Color
                        },
                    ),
                ),
            ),
        }
    } else if name == "debug"@ {
        match o.value {
            OptionValue::Flag(b) => Ok(EmbedRequest { debug: b, ..r }),
            _ => Err(Failure::Invalid(ValidationError::NotFlag(OptionName::Debug))),
        }
    } else {
        Err(Failure::Invalid(ValidationError::UnknownOption(o.name)))
    }
}

/// The request that `options` make, taken in order from an empty one; the
/// first refused option decides the failure.
pub open spec fn resolve(options: Seq<CommandOption>, british: bool) -> Result<
    EmbedRequest,
    Failure,
>
    decreases options.len(),
{
    if options.len() == 0 {
        Ok(
            EmbedRequest {
                artifact: Artifact { title: None, description: None, url: None, color: None },
                debug: false,
            },
        )
    } else {
        match resolve(options.drop_last(), british) {
            Ok(r) => apply_option(r, options.last(), british),
            Err(e) => Err(e),
        }
    }
}

/// The request that `options` make, if it names an embed that can be sent.
pub open spec fn embed_request(options: Seq<CommandOption>, british: bool) -> Result<
    EmbedRequest,
    Failure,
> {
    match resolve(options, british) {
        Ok(r) => match validity(r.artifact) {
            None => Ok(r),
            Some(f) => Err(f),
        },
        Err(e) => Err(e),
    }
}

/// Once an option is refused, later options do not matter.
proof fn lemma_refusal_sticks(options: Seq<CommandOption>, k: int, british: bool)
    requires
        0 <= k <= options.len(),
        resolve(options.subrange(0, k), british) is Err,
    ensures
        resolve(options, british) == resolve(options.subrange(0, k), british),
    decreases options.len(),
{
    if k < options.len() {
        assert(options.drop_last().subrange(0, k) =~= options.subrange(0, k));
        lemma_refusal_sticks(options.drop_last(), k, british);
    } else {
        assert(options.subrange(0, k) =~= options);
    }
}

/// The request after one more option, or why the option is refused.
fn apply(r: EmbedRequest, o: CommandOption, british: bool) -> (res: Result<EmbedRequest, Failure>)
    ensures
        res == apply_option(r, o, british),
{
    let name = o.name.as_str();
    if same_text(name, "title") {
        match o.value {
            OptionValue::Text(v) => Ok(
                EmbedRequest { artifact: Artifact { title: Some(v), ..r.artifact }, ..r },
            ),
            _ => Err(Failure::Invalid(ValidationError::NotText(OptionName::Title))),
        }
    } else if same_text(name, "description") {
        match o.value {
            OptionValue::Text(v) => Ok(
                EmbedRequest { artifact: Artifact { description: Some(v), ..r.artifact }, ..r },
            ),
            _ => Err(Failure::Invalid(ValidationError::NotText(OptionName::Description))),
        }
    } else if same_text(name, "url") {
        match o.value {
            OptionValue::Text(v) => if r.artifact.title.is_some() {
                Ok(EmbedRequest { artifact: Artifact { url: Some(v), ..r.artifact }, ..r })
            } else {
                Err(Failure::Invalid(ValidationError::UrlWithoutTitle))
            },
            _ => Err(Failure::Invalid(ValidationError::NotText(OptionName::Url))),
        }
    } else if same_text(name, "color") {
        match o.value {
            OptionValue::Text(v) => match find_key_or_name(v.as_str()) {
                Some(k) => Ok(
                    EmbedRequest { artifact: Artifact { color: Some(k), ..r.artifact }, ..r },
                ),
                None => Err(Failure::Invalid(ValidationError::UnknownColor(v))),
            },
            _ => {
                let word = if british {
                    OptionName::Colour
                } else {
                    OptionName::Color
                };
                Err(Failure::Invalid(ValidationError::NotText(word)))
            },
        }
    } else if same_text(name, "debug") {
        match o.value {
            OptionValue::Flag(b) => Ok(EmbedRequest { debug: b, ..r }),
            _ => Err(Failure::Invalid(ValidationError::NotFlag(OptionName::Debug))),
        }
    } else {
        Err(Failure::Invalid(ValidationError::UnknownOption(o.name)))
    }
}

/// The embed that an invocation's options describe, in the invocation's
/// locale; refused on the first option that cannot be taken, or when the
/// embed cannot be sent: neither a title nor a description, or one of them
/// over its length limit.
pub fn build_embed(options: Vec<CommandOption>, locale: &str) -> (r: Result<EmbedRequest, Failure>)
    ensures
        r == embed_request(options@, is_british(locale@)),
{
    let british = same_text(locale, "en-GB");
    let total = options.len();
    let ghost all = options@;
    let mut rest = options;
    let mut req = EmbedRequest { artifact: Artifact::new(), debug: false };
    let mut done: usize = 0;
    while rest.len() > 0
        invariant
            all == options@,
            british == is_british(locale@),
            all.len() <= usize::MAX,
            done + rest@.len() == all.len(),
            rest@ == all.subrange(done as int, all.len() as int),
            resolve(all.subrange(0, done as int), british) == Ok::<EmbedRequest, Failure>(req),
        decreases rest@.len(),
    {
        let o = rest.remove(0);
        proof {
            let prefix = all.subrange(0, done + 1);
            assert(prefix.drop_last() =~= all.subrange(0, done as int));
            assert(prefix.last() == o);
        }
        let ghost before = req;
        let ghost taken = o;
        match apply(req, o, british) {
            Ok(next) => {
                req = next;
            },
            Err(e) => {
                proof {
                    assert(resolve(all.subrange(0, done + 1), british) == apply_option(
                        before,
                        taken,
                        british,
                    ));
                    lemma_refusal_sticks(all, done + 1, british);
                }
                return Err(e);
            },
        }
        done += 1;
    }
    proof {
        assert(all.subrange(0, done as int) =~= all);
    }
    match validate(&req.artifact) {
        None => Ok(req),
        Some(f) => Err(f),
    }
}

/// The name that `str::to_lowercase` gives the lower-case form of a text.
pub uninterp spec fn lower_of(s: Seq<char>) -> Seq<char>;

/// Relies on `str::to_lowercase`: the lower-case form of `s`, which depends on
/// the characters of `s` alone.
#[verifier::external_body]
fn lowercase(s: &str) -> (r: String)
    ensures
        r@ == lower_of(s@),
{
    s.to_lowercase()
}

/// The positions `i < n` of `names` in which `query` occurs, in order.
pub open spec fn matching(names: Seq<Seq<char>>, query: Seq<char>, n: int) -> Seq<int>
    decreases n,
{
    if n <= 0 {
        Seq::empty()
    } else if occurs_in(query, names[n - 1]) {
        matching(names, query, n - 1).push(n - 1)
    } else {
        matching(names, query, n - 1)
    }
}

/// Every position found lies below `n`.
proof fn lemma_matching_below(names: Seq<Seq<char>>, query: Seq<char>, n: int)
    ensures
        forall|j: int|
            0 <= j < matching(names, query, n).len() ==> 0 <= #[trigger] matching(
                names,
                query,
                n,
            )[j] < n,
        matching(names, query, n).len() <= if n < 0 { 0 } else { n },
    decreases n,
{
    if n > 0 {
        lemma_matching_below(names, query, n - 1);
    }
}

/// The first `MAX_CHOICES` elements of `s`, or all of them if there are fewer.
pub open spec fn at_most_choices(s: Seq<int>) -> Seq<int> {
    if s.len() <= MAX_CHOICES {
        s
    } else {
        s.take(MAX_CHOICES as int)
    }
}

/// The texts of `names`.
pub open spec fn texts(names: Seq<String>) -> Seq<Seq<char>> {
    names.map_values(|s: String| s@)
}

/// The positions of `names` in which `query` occurs, in order and at most
/// `MAX_CHOICES` of them. Both sides are expected in one letter case already.
pub fn matching_positions(names: &Vec<String>, query: &str) -> (r: Vec<usize>)
    ensures
        r@.len() == at_most_choices(matching(texts(names@), query@, names@.len() as int)).len(),
        forall|j: int|
            0 <= j < r@.len() ==> r@[j] as int == at_most_choices(
                matching(texts(names@), query@, names@.len() as int),
            )[j],
{
    let ghost seen = texts(names@);
    let mut found: Vec<usize> = Vec::new();
    let mut i: usize = 0;
    while i < names.len()
        invariant
            i <= names@.len(),
            seen == texts(names@),
            found@.len() == matching(seen, query@, i as int).len(),
            forall|j: int|
                0 <= j < found@.len() ==> #[trigger] found@[j] as int == matching(
                    seen,
                    query@,
                    i as int,
                )[j],
        decreases names@.len() - i,
    {
        if contains_text(names[i].as_str(), query) {
            found.push(i);
        }
        i += 1;
    }
    found.truncate(MAX_CHOICES);
    found
}

/// The shown names of the catalogue, lower-cased.
pub open spec fn folded_names() -> Seq<Seq<char>> {
    Seq::new(CATALOG_LEN as nat, |i: int| lower_of(color_at(i).name_text()))
}

/// The colours to suggest for what the user typed so far: those whose name
/// holds it, ignoring letter case, in catalogue order and at most
/// `MAX_CHOICES` of them.
pub fn suggestions(typed: &str) -> (r: Vec<ColorKey>)
    ensures
        r@.len() == at_most_choices(matching(folded_names(), lower_of(typed@), CATALOG_LEN as int)).len(),
        forall|j: int|
            0 <= j < r@.len() ==> r@[j] == color_at(
                at_most_choices(matching(folded_names(), lower_of(typed@), CATALOG_LEN as int))[j],
            ),
{
    let mut names: Vec<String> = Vec::new();
    let mut i: usize = 0;
    while i < CATALOG_LEN
        invariant
            i <= CATALOG_LEN,
            names@.len() == i,
            forall|j: int| 0 <= j < i ==> #[trigger] names@[j]@ == folded_names()[j],
        decreases CATALOG_LEN - i,
    {
        names.push(lowercase(ColorKey::from_rank(i).name()));
        i += 1;
    }
    let query = lowercase(typed);
    proof {
        assert(texts(names@) =~= folded_names());
    }
    let positions = matching_positions(&names, query.as_str());
    proof {
        lemma_matching_below(folded_names(), query@, CATALOG_LEN as int);
    }
    let mut r: Vec<ColorKey> = Vec::new();
    let mut j: usize = 0;
    while j < positions.len()
        invariant
            j <= positions@.len(),
            r@.len() == j,
            positions@.len() == at_most_choices(matching(folded_names(), query@, CATALOG_LEN as int)).len(),
            forall|m: int|
                0 <= m < positions@.len() ==> positions@[m] as int == at_most_choices(
                    matching(folded_names(), query@, CATALOG_LEN as int),
                )[m],
            forall|m: int| 0 <= m < j ==> #[trigger] r@[m] == color_at(positions@[m] as int),
            forall|m: int|
                0 <= m < matching(folded_names(), query@, CATALOG_LEN as int).len() ==> 0
                    <= #[trigger] matching(folded_names(), query@, CATALOG_LEN as int)[m]
                    < CATALOG_LEN,
        decreases positions@.len() - j,
    {
        r.push(ColorKey::from_rank(positions[j]));
        j += 1;
    }
    r
}

} // verus!

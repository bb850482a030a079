//! `WWW-Authenticate` challenges, and the bearer challenge that registries
//! answer an anonymous request with.
//!
//! Reading the header is left to the `www_authenticate` crate. Its types are
//! declared here, what they hold is given a name, and each of its functions
//! that the library calls has a wrapper whose contract is taken on trust.
//! Everything built on them is verified against those contracts.

use crate::errors::{ErrorView, OciError};
use crate::text::ascii_fold;
use hyperx::header::{Header, Raw};
use vstd::prelude::*;
use www_authenticate::{ChallengeFields, RawChallenge, WwwAuthenticate};

verus! {

/// `www_authenticate::ChallengeFields`, the fields of one challenge. Its
/// contents are known only through [`fields_view`].
#[verifier::external_type_specification]
#[verifier::external_body]
pub struct ExChallengeFields(ChallengeFields);

/// `www_authenticate::RawChallenge`, one challenge as it was read: either a
/// token68 or a set of fields. Both variants are visible to the verifier.
#[verifier::external_type_specification]
pub struct ExRawChallenge(RawChallenge);

/// `www_authenticate::WwwAuthenticate`, a parsed header. Its contents are
/// known only through [`challenges_view`].
#[verifier::external_type_specification]
#[verifier::external_body]
pub struct ExWwwAuthenticate(WwwAuthenticate);

/// `hyperx::Error`, the error with which a header is rejected.
#[verifier::external_type_specification]
#[verifier::external_body]
pub struct ExHeaderError(hyperx::Error);

/// The mathematical value of a raw challenge.
pub enum RawView {
    Token68(Seq<char>),
    Fields(Map<Seq<char>, Seq<char>>),
}

/// What a set of challenge fields holds: the value of each field, under the
/// field's name folded to ASCII lower case. The crate compares field names
/// without regard to ASCII case, so a set holds one value per folded name.
pub uninterp spec fn fields_view(fields: ChallengeFields) -> Map<Seq<char>, Seq<char>>;

/// What a parsed header holds: under each scheme's name folded to ASCII lower
/// case, the challenges of that scheme in the order of the header.
pub uninterp spec fn challenges_view(auth: WwwAuthenticate) -> Map<Seq<char>, Seq<RawView>>;

/// What `www_authenticate` reads from a header of the single line `line`:
/// the contents of the parsed header, or `None` where it rejects the line.
pub uninterp spec fn parsed_header(line: Seq<u8>) -> Option<Map<Seq<char>, Seq<RawView>>>;

/// The value of `raw`.
pub open spec fn raw_view(raw: RawChallenge) -> RawView {
    match raw {
        RawChallenge::Token68(token) => RawView::Token68(token@),
        RawChallenge::Fields(fields) => RawView::Fields(fields_view(fields)),
    }
}

/// The values of `raws`, in order.
pub open spec fn raw_views(raws: Seq<RawChallenge>) -> Seq<RawView> {
    raws.map_values(|raw: RawChallenge| raw_view(raw))
}

/// A line whose last byte is a backslash. Inside a quoted string a backslash
/// escapes the byte that follows it, so such a line is cut short.
pub open spec fn ends_in_backslash(line: Seq<u8>) -> bool {
    line.len() > 0 && line.last() == 0x5c
}

/// The set without fields.
pub open spec fn no_fields() -> Map<Seq<char>, Seq<char>> {
    Map::empty()
}

/// `ChallengeFields::new`: a set without fields.
#[verifier::external_body]
fn fields_new() -> (r: ChallengeFields)
    ensures
        fields_view(r) == no_fields(),
{
    ChallengeFields::new()
}

/// `ChallengeFields::insert_static_quoting`: the field `name` now has
/// `value`, the other fields are as before, and the value that `name` had
/// before, if any, is returned.
#[verifier::external_body]
fn fields_insert(fields: &mut ChallengeFields, name: &'static str, value: String) -> (r: Option<
    String,
>)
    ensures
        fields_view(*final(fields)) == fields_view(*old(fields)).insert(ascii_fold(name@), value@),
        r is Some <==> fields_view(*old(fields)).contains_key(ascii_fold(name@)),
        r matches Some(v) ==> v@ == fields_view(*old(fields))[ascii_fold(name@)],
{
    fields.insert_static_quoting(name, value)
}

/// `ChallengeFields::remove`: the field `name` is gone, the other fields are
/// as before, and the value that `name` had, if any, is returned.
#[verifier::external_body]
fn fields_remove(fields: &mut ChallengeFields, name: &str) -> (r: Option<String>)
    ensures
        fields_view(*final(fields)) == fields_view(*old(fields)).remove(ascii_fold(name@)),
        r is Some <==> fields_view(*old(fields)).contains_key(ascii_fold(name@)),
        r matches Some(v) ==> v@ == fields_view(*old(fields))[ascii_fold(name@)],
{
    fields.remove(name)
}

/// `WwwAuthenticate::parse_header` on a header of the single line `line`.
/// The outcome depends on the bytes of the line alone and is named
/// [`parsed_header`]. The parser indexes one byte past an escaping
/// backslash, so a line that ends in one is not handed to it.
#[verifier::external_body]
fn parse_header(line: &[u8]) -> (r: Result<WwwAuthenticate, hyperx::Error>)
    requires
        !ends_in_backslash(line@),
    ensures
        r is Ok <==> parsed_header(line@) is Some,
        r matches Ok(auth) ==> challenges_view(auth) == parsed_header(line@)->0,
{
    WwwAuthenticate::parse_header(&Raw::from(line))
}

/// `WwwAuthenticate::get_raw`: the challenges of the scheme `name`, whose
/// name is compared without regard to ASCII case, as owned values; `None`
/// where the header names no such scheme.
#[verifier::external_body]
fn get_raw(auth: &WwwAuthenticate, name: &str) -> (r: Option<Vec<RawChallenge>>)
    ensures
        r is Some <==> challenges_view(*auth).contains_key(ascii_fold(name@)),
        r matches Some(raws) ==> raw_views(raws@) == challenges_view(*auth)[ascii_fold(name@)],
{
    auth.get_raw(name).map(|raws| raws.to_vec())
}

/// A challenge of the `Bearer` scheme: where to ask for a token, and what
/// to ask it for. All three fields are optional on the wire.
#[derive(Debug, PartialEq, Eq)]
pub struct BearerChallenge {
    pub realm: Option<String>,
    pub service: Option<String>,
    pub scope: Option<String>,
}

/// The mathematical value of a [`BearerChallenge`].
pub struct BearerView {
    pub realm: Option<Seq<char>>,
    pub service: Option<Seq<char>>,
    pub scope: Option<Seq<char>>,
}

/// The value of an optional string.
pub open spec fn text_view(text: Option<String>) -> Option<Seq<char>> {
    match text {
        Some(s) => Some(s@),
        None => None,
    }
}

impl View for BearerChallenge {
    type V = BearerView;

    open spec fn view(&self) -> BearerView {
        BearerView {
            realm: text_view(self.realm),
            service: text_view(self.service),
            scope: text_view(self.scope),
        }
    }
}

/// A copy of an optional string.
fn clone_text(text: &Option<String>) -> (r: Option<String>)
    ensures
        text_view(r) == text_view(*text),
{
    match text {
        Some(s) => Some(s.clone()),
        None => None,
    }
}

impl Clone for BearerChallenge {
    fn clone(&self) -> (r: Self)
        ensures
            r@ == self@,
    {
        BearerChallenge {
            realm: clone_text(&self.realm),
            service: clone_text(&self.service),
            scope: clone_text(&self.scope),
        }
    }
}

/// The values of `challenges`, in order.
pub open spec fn bearer_views(challenges: Seq<BearerChallenge>) -> Seq<BearerView> {
    challenges.map_values(|c: BearerChallenge| c@)
}

/// The value of the field `name`, if `fields` has it.
pub open spec fn field(fields: Map<Seq<char>, Seq<char>>, name: Seq<char>) -> Option<Seq<char>> {
    if fields.contains_key(name) {
        Some(fields[name])
    } else {
        None
    }
}

/// `fields` with `name` set to `value`, if there is one.
pub open spec fn with_field(
    fields: Map<Seq<char>, Seq<char>>,
    name: Seq<char>,
    value: Option<Seq<char>>,
) -> Map<Seq<char>, Seq<char>> {
    match value {
        Some(v) => fields.insert(name, v),
        None => fields,
    }
}

/// The bearer challenge that a raw challenge spells. A token68 spells none;
/// a set of fields spells the challenge with its `realm`, `service` and
/// `scope`, whatever else it holds.
pub open spec fn bearer_from_raw(raw: RawView) -> Option<BearerView> {
    match raw {
        RawView::Token68(_) => None,
        RawView::Fields(fields) => Some(
            BearerView {
                realm: field(fields, "realm"@),
                service: field(fields, "service"@),
                scope: field(fields, "scope"@),
            },
        ),
    }
}

/// The raw challenge that spells `challenge`: the fields it has, no other.
pub open spec fn bearer_into_raw(challenge: BearerView) -> RawView {
    RawView::Fields(
        with_field(
            with_field(
                with_field(no_fields(), "realm"@, challenge.realm),
                "scope"@,
                challenge.scope,
            ),
            "service"@,
            challenge.service,
        ),
    )
}

/// The bearer challenges among `raws`, in order: those that are no token68.
pub open spec fn bearer_list(raws: Seq<RawView>) -> Seq<BearerView>
    decreases raws.len(),
{
    if raws.len() == 0 {
        Seq::empty()
    } else {
        match bearer_from_raw(raws.last()) {
            Some(challenge) => bearer_list(raws.drop_last()).push(challenge),
            None => bearer_list(raws.drop_last()),
        }
    }
}

/// The bearer challenges that the `WWW-Authenticate` line `line` offers, in
/// the order of the line; `None` where the line is malformed. A line without
/// the `Bearer` scheme, or with token68 entries only under it, offers none.
pub open spec fn bearer_challenges(line: Seq<u8>) -> Option<Seq<BearerView>> {
    if ends_in_backslash(line) {
        None
    } else {
        match parsed_header(line) {
            None => None,
            Some(schemes) => Some(
                if schemes.contains_key(ascii_fold("Bearer"@)) {
                    bearer_list(schemes[ascii_fold("Bearer"@)])
                } else {
                    Seq::empty()
                },
            ),
        }
    }
}

/// The three field names are in lower case already and differ from one
/// another.
proof fn lemma_field_names()
    ensures
        ascii_fold("realm"@) == "realm"@,
        ascii_fold("service"@) == "service"@,
        ascii_fold("scope"@) == "scope"@,
        "realm"@ != "service"@,
        "realm"@ != "scope"@,
        "service"@ != "scope"@,
{
    reveal_strlit("realm");
    reveal_strlit("service");
    reveal_strlit("scope");
    assert(ascii_fold("realm"@) =~= "realm"@);
    assert(ascii_fold("service"@) =~= "service"@);
    assert(ascii_fold("scope"@) =~= "scope"@);
    assert("realm"@[0] != "service"@[0]);
    assert("realm"@[0] != "scope"@[0]);
    assert("service"@[1] != "scope"@[1]);
}

impl BearerChallenge {
    /// The name of the scheme.
    pub fn challenge_name() -> (r: &'static str)
        ensures
            r@ == "Bearer"@,
    {
        "Bearer"
    }

    /// Reads a bearer challenge from a raw one.
    pub fn from_raw(raw: RawChallenge) -> (r: Option<Self>)
        ensures
            match bearer_from_raw(raw_view(raw)) {
                Some(challenge) => r matches Some(c) && c@ == challenge,
                None => r is None,
            },
    {
        match raw {
            RawChallenge::Token68(_) => None,
            RawChallenge::Fields(mut map) => {
                proof {
                    lemma_field_names();
                }
                let realm = fields_remove(&mut map, "realm");
                let scope = fields_remove(&mut map, "scope");
                let service = fields_remove(&mut map, "service");
                Some(BearerChallenge { realm, service, scope })
            },
        }
    }

    /// Writes the challenge as a raw one.
    pub fn into_raw(self) -> (r: RawChallenge)
        ensures
            raw_view(r) == bearer_into_raw(self@),
    {
        let mut map = fields_new();
        proof {
            lemma_field_names();
        }
        if let Some(realm) = self.realm {
            fields_insert(&mut map, "realm", realm);
        }
        if let Some(scope) = self.scope {
            fields_insert(&mut map, "scope", scope);
        }
        if let Some(service) = self.service {
            fields_insert(&mut map, "service", service);
        }
        RawChallenge::Fields(map)
    }

    /// The bearer challenges among `raws`, in order.
    pub fn from_raws(raws: Vec<RawChallenge>) -> (r: Vec<Self>)
        ensures
            bearer_views(r@) == bearer_list(raw_views(raws@)),
    {
        let mut out: Vec<BearerChallenge> = Vec::new();
        for raw in it: raws.into_iter()
            invariant
                it.seq() == raws@,
                bearer_views(out@) == bearer_list(raw_views(it.seq().take(it.index() as int))),
        {
            let ghost seen = it.seq().take(it.index() as int);
            let ghost next = it.seq().take(it.index() + 1);
            assert(raw_views(next).drop_last() =~= raw_views(seen));
            assert(raw_views(next).last() == raw_view(raw));
            let ghost before = out@;
            if let Some(challenge) = Self::from_raw(raw) {
                out.push(challenge);
                assert(bearer_views(out@) =~= bearer_views(before).push(challenge@));
            }
        }
        assert(raws@.take(raws@.len() as int) =~= raws@);
        out
    }

    /// Reads the bearer challenges of a `WWW-Authenticate` line.
    ///
    /// A line that ends in a backslash is malformed whatever precedes it,
    /// and is answered without the parser.
    pub fn parse(line: &[u8]) -> (r: Result<Vec<Self>, OciError>)
        ensures
            match bearer_challenges(line@) {
                Some(challenges) => r matches Ok(v) && bearer_views(v@) == challenges,
                None => r matches Err(e) && e@ == ErrorView::MalformedChallenge,
            },
    {
        let n = line.len();
        if n > 0 && line[n - 1] == 0x5c {
            return Err(OciError::MalformedChallenge);
        }
        match parse_header(line) {
            Err(_) => Err(OciError::MalformedChallenge),
            Ok(auth) => match get_raw(&auth, Self::challenge_name()) {
                None => {
                    let none: Vec<BearerChallenge> = Vec::new();
                    assert(bearer_views(none@) =~= Seq::<BearerView>::empty());
                    Ok(none)
                },
                Some(raws) => Ok(Self::from_raws(raws)),
            },
        }
    }
}

/// A bearer challenge written as a raw challenge and read back is the
/// challenge itself.
pub proof fn lemma_bearer_round_trip(challenge: BearerView)
    ensures
        bearer_from_raw(bearer_into_raw(challenge)) == Some(challenge),
{
    lemma_field_names();
}

/// A token68 among the raw challenges adds no bearer challenge: reading a
/// list that ends in one gives what the list before it gives.
pub proof fn lemma_token68_is_skipped(raws: Seq<RawView>, token: Seq<char>)
    ensures
        bearer_list(raws.push(RawView::Token68(token))) == bearer_list(raws),
{
    assert(raws.push(RawView::Token68(token)).drop_last() =~= raws);
}

/// Raw challenges that are all token68 spell no bearer challenge at all.
pub proof fn lemma_token68_only_is_no_challenge(raws: Seq<RawView>)
    requires
        forall|i: int| 0 <= i < raws.len() ==> #[trigger] raws[i] is Token68,
    ensures
        bearer_list(raws) == Seq::<BearerView>::empty(),
    decreases raws.len(),
{
    if raws.len() > 0 {
        lemma_token68_only_is_no_challenge(raws.drop_last());
    }
}

/// Every raw challenge that has fields spells a bearer challenge, so the
/// bearer challenges are as many as the raw challenges with fields, and no
/// more than the raw challenges.
pub proof fn lemma_bearer_list_is_no_longer(raws: Seq<RawView>)
    ensures
        bearer_list(raws).len() <= raws.len(),
        (forall|i: int| 0 <= i < raws.len() ==> #[trigger] raws[i] is Fields) ==> bearer_list(
            raws,
        ).len() == raws.len(),
    decreases raws.len(),
{
    if raws.len() > 0 {
        lemma_bearer_list_is_no_longer(raws.drop_last());
    }
}

} // verus!

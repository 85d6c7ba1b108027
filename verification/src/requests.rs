//! Request payloads and their serialization to form pairs.
//!
//! Every write operation sends a URL-encoded form body.  A body is modelled
//! as a sequence of `(key, value)` pairs: an unset optional field contributes
//! no pair at all, an enum field contributes its wire token, and a newsletter
//! list is joined into one comma-separated value beforehand.

use vstd::prelude::*;
use vstd::string::*;

use crate::wire::Format;
use crate::wire::YesNo;
use crate::wire::format_word;
use crate::wire::yes_no_word;

verus! {

/// The form body of a subscribe operation.
pub struct Subscribe {
    pub email: String,
    pub newsletters: String,
    pub opts: Option<SubscribeOpts>,
}

/// The all-optional extension fields of a subscribe operation.  An unset
/// field is omitted from the form body entirely, so the service falls back
/// to its own default for it.
pub struct SubscribeOpts {
    pub format: Option<Format>,
    pub country: Option<String>,
    pub lang: Option<String>,
    pub optin: Option<YesNo>,
    pub source_url: Option<String>,
    pub trigger_welcome: Option<YesNo>,
    pub sync: Option<YesNo>,
}

/// The form body of an unsubscribe operation.
pub struct Unsubscribe {
    pub newsletters: String,
    pub optout: YesNo,
}

/// The form body of a partial user update: only the present fields are
/// transmitted.
pub struct UpdateUser {
    pub email: Option<String>,
    pub opts: Option<UpdateUserOpts>,
}

/// The all-optional extension fields of a user update.
pub struct UpdateUserOpts {
    pub format: Option<Format>,
    pub country: Option<String>,
    pub lang: Option<String>,
    pub optin: Option<YesNo>,
    pub newsletters: Option<String>,
}

/// The pairs of an executable form body, as mathematical strings.
pub open spec fn pairs_view(ps: Seq<(String, String)>) -> Seq<(Seq<char>, Seq<char>)> {
    ps.map_values(|p: (String, String)| (p.0@, p.1@))
}

/// The zero or one pairs an optional field contributes to a form body.
pub open spec fn opt_pair(key: Seq<char>, v: Option<Seq<char>>) -> Seq<(Seq<char>, Seq<char>)> {
    match v {
        Some(s) => seq![(key, s)],
        None => Seq::empty(),
    }
}

/// The value, if any, of an optional string field.
pub open spec fn str_opt(v: Option<String>) -> Option<Seq<char>> {
    match v {
        Some(s) => Some(s@),
        None => None,
    }
}

/// The wire token, if any, of an optional format field.
pub open spec fn format_opt(v: Option<Format>) -> Option<Seq<char>> {
    match v {
        Some(f) => Some(format_word(f)),
        None => None,
    }
}

/// The wire token, if any, of an optional yes/no field.
pub open spec fn yes_no_opt(v: Option<YesNo>) -> Option<Seq<char>> {
    match v {
        Some(y) => Some(yes_no_word(y)),
        None => None,
    }
}

/// The form pairs of the subscribe extension fields, in wire order.
pub open spec fn subscribe_opts_pairs(o: SubscribeOpts) -> Seq<(Seq<char>, Seq<char>)> {
    opt_pair("format"@, format_opt(o.format)) + opt_pair("country"@, str_opt(o.country))
        + opt_pair("lang"@, str_opt(o.lang)) + opt_pair("optin"@, yes_no_opt(o.optin))
        + opt_pair("source_url"@, str_opt(o.source_url)) + opt_pair(
        "trigger_welcome"@,
        yes_no_opt(o.trigger_welcome),
    ) + opt_pair("sync"@, yes_no_opt(o.sync))
}

/// The full form body of a subscribe operation: `email` and `newsletters`
/// first, then the pairs of whatever extension fields are set.
pub open spec fn subscribe_pairs(s: Subscribe) -> Seq<(Seq<char>, Seq<char>)> {
    seq![("email"@, s.email@), ("newsletters"@, s.newsletters@)] + match s.opts {
        Some(o) => subscribe_opts_pairs(o),
        None => Seq::empty(),
    }
}

/// The form body of an unsubscribe operation: always exactly the joined
/// newsletter list and the opt-out flag.
pub open spec fn unsubscribe_pairs(u: Unsubscribe) -> Seq<(Seq<char>, Seq<char>)> {
    seq![("newsletters"@, u.newsletters@), ("optout"@, yes_no_word(u.optout))]
}

/// The form pairs of the update extension fields, in wire order.
pub open spec fn update_opts_pairs(o: UpdateUserOpts) -> Seq<(Seq<char>, Seq<char>)> {
    opt_pair("format"@, format_opt(o.format)) + opt_pair("country"@, str_opt(o.country))
        + opt_pair("lang"@, str_opt(o.lang)) + opt_pair("optin"@, yes_no_opt(o.optin)) + opt_pair(
        "newsletters"@,
        str_opt(o.newsletters),
    )
}

/// The full form body of a user update: only present fields appear.
pub open spec fn update_user_pairs(u: UpdateUser) -> Seq<(Seq<char>, Seq<char>)> {
    opt_pair("email"@, str_opt(u.email)) + match u.opts {
        Some(o) => update_opts_pairs(o),
        None => Seq::empty(),
    }
}

/// Mapping a pair sequence commutes with appending one pair.
proof fn lemma_pairs_view_push(s: Seq<(String, String)>, p: (String, String))
    ensures
        pairs_view(s.push(p)) == pairs_view(s).push((p.0@, p.1@)),
{
    assert(pairs_view(s.push(p)) =~= pairs_view(s).push((p.0@, p.1@)));
}

/// Appends one form pair under a fixed key.
pub(crate) fn push_pair(ps: &mut Vec<(String, String)>, key: &'static str, value: String)
    ensures
        pairs_view(final(ps)@) == pairs_view(old(ps)@) + seq![(key@, value@)],
{
    let ghost before = ps@;
    let pair = (String::from_str(key), value);
    let ghost gp = pair;
    ps.push(pair);
    proof {
        lemma_pairs_view_push(before, gp);
        assert(pairs_view(ps@) =~= pairs_view(before) + seq![(key@, gp.1@)]);
    }
}

/// Appends the pair of an optional token-valued field, or nothing.
fn push_opt_token(ps: &mut Vec<(String, String)>, key: &'static str, tok: Option<&str>)
    ensures
        pairs_view(final(ps)@) == pairs_view(old(ps)@) + opt_pair(
            key@,
            match tok {
                Some(t) => Some(t@),
                None => None,
            },
        ),
{
    match tok {
        Some(t) => {
            push_pair(ps, key, String::from_str(t));
        },
        None => {
            assert(pairs_view(ps@) =~= pairs_view(ps@) + Seq::<(Seq<char>, Seq<char>)>::empty());
        },
    }
}

/// Appends the pair of an optional string-valued field, or nothing.
fn push_opt_string(ps: &mut Vec<(String, String)>, key: &'static str, v: &Option<String>)
    ensures
        pairs_view(final(ps)@) == pairs_view(old(ps)@) + opt_pair(key@, str_opt(*v)),
{
    match v {
        Some(s) => {
            push_pair(ps, key, s.clone());
        },
        None => {
            assert(pairs_view(ps@) =~= pairs_view(ps@) + Seq::<(Seq<char>, Seq<char>)>::empty());
        },
    }
}

impl SubscribeOpts {
    /// True when every extension field is unset.
    pub open spec fn is_unset(self) -> bool {
        self.format is None && self.country is None && self.lang is None && self.optin is None
            && self.source_url is None && self.trigger_welcome is None && self.sync is None
    }

    /// Appends the pairs of the set fields, in wire order.
    #[verifier::rlimit(60)]
    fn append_pairs(&self, ps: &mut Vec<(String, String)>)
        ensures
            pairs_view(final(ps)@) == pairs_view(old(ps)@) + subscribe_opts_pairs(*self),
    {
        let ghost g0 = ps@;
        push_opt_token(
            ps,
            "format",
            match &self.format {
                Some(f) => Some(f.as_str()),
                None => None,
            },
        );
        let ghost g1 = ps@;
        push_opt_string(ps, "country", &self.country);
        let ghost g2 = ps@;
        push_opt_string(ps, "lang", &self.lang);
        let ghost g3 = ps@;
        push_opt_token(
            ps,
            "optin",
            match &self.optin {
                Some(y) => Some(y.as_str()),
                None => None,
            },
        );
        let ghost g4 = ps@;
        push_opt_string(ps, "source_url", &self.source_url);
        let ghost g5 = ps@;
        push_opt_token(
            ps,
            "trigger_welcome",
            match &self.trigger_welcome {
                Some(y) => Some(y.as_str()),
                None => None,
            },
        );
        let ghost g6 = ps@;
        push_opt_token(
            ps,
            "sync",
            match &self.sync {
                Some(y) => Some(y.as_str()),
                None => None,
            },
        );
        proof {
            let p1 = opt_pair("format"@, format_opt(self.format));
            let p2 = opt_pair("country"@, str_opt(self.country));
            let p3 = opt_pair("lang"@, str_opt(self.lang));
            let p4 = opt_pair("optin"@, yes_no_opt(self.optin));
            let p5 = opt_pair("source_url"@, str_opt(self.source_url));
            let p6 = opt_pair("trigger_welcome"@, yes_no_opt(self.trigger_welcome));
            assert(pairs_view(g2) =~= pairs_view(g0) + (p1 + p2));
            assert(pairs_view(g3) =~= pairs_view(g0) + (p1 + p2 + p3));
            assert(pairs_view(g4) =~= pairs_view(g0) + (p1 + p2 + p3 + p4));
            assert(pairs_view(g5) =~= pairs_view(g0) + (p1 + p2 + p3 + p4 + p5));
            assert(pairs_view(g6) =~= pairs_view(g0) + (p1 + p2 + p3 + p4 + p5 + p6));
            assert(pairs_view(ps@) =~= pairs_view(g0) + subscribe_opts_pairs(*self));
        }
    }
}

impl Default for SubscribeOpts {
    /// The options bag with every field unset.
    fn default() -> (r: Self)
        ensures
            r.is_unset(),
    {
        SubscribeOpts {
            format: None,
            country: None,
            lang: None,
            optin: None,
            source_url: None,
            trigger_welcome: None,
            sync: None,
        }
    }
}

impl Subscribe {
    /// The form body of this request, as pairs ready for URL encoding.
    pub fn form_pairs(&self) -> (r: Vec<(String, String)>)
        ensures
            pairs_view(r@) == subscribe_pairs(*self),
    {
        let mut ps: Vec<(String, String)> = Vec::new();
        push_pair(&mut ps, "email", self.email.clone());
        push_pair(&mut ps, "newsletters", self.newsletters.clone());
        let ghost base = ps@;
        match &self.opts {
            Some(o) => {
                o.append_pairs(&mut ps);
            },
            None => {},
        }
        proof {
            assert(pairs_view(ps@) =~= subscribe_pairs(*self));
        }
        ps
    }
}

impl Unsubscribe {
    /// The form body of this request: the joined newsletter list and the
    /// opt-out flag, nothing else.
    pub fn form_pairs(&self) -> (r: Vec<(String, String)>)
        ensures
            pairs_view(r@) == unsubscribe_pairs(*self),
    {
        let mut ps: Vec<(String, String)> = Vec::new();
        push_pair(&mut ps, "newsletters", self.newsletters.clone());
        push_pair(&mut ps, "optout", String::from_str(self.optout.as_str()));
        proof {
            assert(pairs_view(ps@) =~= unsubscribe_pairs(*self));
        }
        ps
    }
}

impl UpdateUserOpts {
    /// True when every extension field is unset.
    pub open spec fn is_unset(self) -> bool {
        self.format is None && self.country is None && self.lang is None && self.optin is None
            && self.newsletters is None
    }

    /// Appends the pairs of the set fields, in wire order.
    fn append_pairs(&self, ps: &mut Vec<(String, String)>)
        ensures
            pairs_view(final(ps)@) == pairs_view(old(ps)@) + update_opts_pairs(*self),
    {
        let ghost g0 = ps@;
        push_opt_token(
            ps,
            "format",
            match &self.format {
                Some(f) => Some(f.as_str()),
                None => None,
            },
        );
        push_opt_string(ps, "country", &self.country);
        push_opt_string(ps, "lang", &self.lang);
        push_opt_token(
            ps,
            "optin",
            match &self.optin {
                Some(y) => Some(y.as_str()),
                None => None,
            },
        );
        push_opt_string(ps, "newsletters", &self.newsletters);
        proof {
            assert(pairs_view(ps@) =~= pairs_view(g0) + update_opts_pairs(*self));
        }
    }
}

impl Default for UpdateUserOpts {
    /// The options bag with every field unset.
    fn default() -> (r: Self)
        ensures
            r.is_unset(),
    {
        UpdateUserOpts { format: None, country: None, lang: None, optin: None, newsletters: None }
    }
}

impl UpdateUser {
    /// The form body of this request: only the present fields appear.
    pub fn form_pairs(&self) -> (r: Vec<(String, String)>)
        ensures
            pairs_view(r@) == update_user_pairs(*self),
    {
        let mut ps: Vec<(String, String)> = Vec::new();
        push_opt_string(&mut ps, "email", &self.email);
        match &self.opts {
            Some(o) => {
                o.append_pairs(&mut ps);
            },
            None => {},
        }
        proof {
            assert(pairs_view(ps@) =~= update_user_pairs(*self));
        }
        ps
    }
}

/// The comma join of a list of identifiers: no separator around a single
/// element, one comma between neighbours, no surrounding whitespace.
pub open spec fn comma_join(l: Seq<Seq<char>>) -> Seq<char>
    decreases l.len(),
{
    if l.len() == 0 {
        Seq::empty()
    } else if l.len() == 1 {
        l[0]
    } else {
        comma_join(l.drop_last()) + ","@ + l.last()
    }
}

/// Joins newsletter identifiers into the single comma-separated wire value.
pub fn join_newsletters(names: &Vec<String>) -> (r: String)
    ensures
        r@ == comma_join(names.deep_view()),
{
    let mut s = String::new();
    let mut i: usize = 0;
    while i < names.len()
        invariant
            i <= names.len(),
            s@ == comma_join(names.deep_view().take(i as int)),
        decreases names.len() - i,
    {
        if i > 0 {
            s.append(",");
        }
        s.append(names[i].as_str());
        proof {
            let full = names.deep_view();
            assert(full.take(i + 1).drop_last() =~= full.take(i as int));
            assert(full.take(i + 1).last() == names[i as int]@);
            if i == 0 {
                assert(s@ =~= comma_join(full.take(i + 1)));
            } else {
                assert(s@ =~= comma_join(full.take(i as int)) + ","@ + names[i as int]@);
            }
        }
        i = i + 1;
    }
    proof {
        assert(names.deep_view().take(names@.len() as int) =~= names.deep_view());
    }
    s
}

/// A subscribe body whose options are absent or wholly unset carries exactly
/// the `email` and `newsletters` pairs.
pub proof fn lemma_subscribe_pairs_minimal(s: Subscribe)
    requires
        s.opts is None || (s.opts matches Some(o) && o.is_unset()),
    ensures
        subscribe_pairs(s) == seq![("email"@, s.email@), ("newsletters"@, s.newsletters@)],
{
    assert(subscribe_pairs(s) =~= seq![("email"@, s.email@), ("newsletters"@, s.newsletters@)]);
}

/// Setting `country` alone adds exactly one pair to the minimal subscribe
/// body, at its end.
pub proof fn lemma_subscribe_pairs_country_only(s: Subscribe, c: String)
    requires
        s.opts matches Some(o) && o.country == Some(c) && o.format is None && o.lang is None
            && o.optin is None && o.source_url is None && o.trigger_welcome is None
            && o.sync is None,
    ensures
        subscribe_pairs(s) == seq![
            ("email"@, s.email@),
            ("newsletters"@, s.newsletters@),
            ("country"@, c@),
        ],
{
    assert(subscribe_pairs(s) =~= seq![
        ("email"@, s.email@),
        ("newsletters"@, s.newsletters@),
        ("country"@, c@),
    ]);
}

} // verus!

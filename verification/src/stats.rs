use vstd::prelude::*;
use vstd::string::{StrSliceExecFns, StringExecFns};
use crate::data::{Data, DataView};
use crate::error::ValidationError;
use crate::steam::{stats_form, steam_id_shape};
use crate::tables::lookup;
use crate::text::{push_signed_decimal, signed_decimal_text};

verus! {

/// What the statistics service is asked for.
#[derive(Clone, Copy, Debug, PartialEq, Eq, Structural)]
pub enum QueryTypeChoice {
    Top10,
    Maps,
}

/// The name of a query type as the statistics service knows it.
pub open spec fn query_type_name(choice: QueryTypeChoice) -> Seq<char> {
    match choice {
        QueryTypeChoice::Top10 => "top10"@,
        QueryTypeChoice::Maps => "maps"@,
    }
}

impl QueryTypeChoice {
    /// The name of the query type: `top10` or `maps`.
    pub fn as_str(&self) -> (name: &str)
        ensures
            name@ == query_type_name(*self),
    {
        match self {
            Self::Top10 => "top10",
            Self::Maps => "maps",
        }
    }
}

/// A query to the statistics service: its parameters in order, and whether
/// the answer is to be shown by map.
#[derive(Clone, Debug, PartialEq, Eq)]
pub struct StatsQuery {
    pub options: Vec<(String, String)>,
    pub print_map: bool,
}

/// A query as the contracts see it.
pub struct StatsQueryView {
    pub options: Seq<(Seq<char>, Seq<char>)>,
    pub print_map: bool,
}

/// The views of a list of parameters.
pub open spec fn options_view(options: Seq<(String, String)>) -> Seq<(Seq<char>, Seq<char>)> {
    options.map_values(|p: (String, String)| (p.0@, p.1@))
}

impl View for StatsQuery {
    type V = StatsQueryView;

    open spec fn view(&self) -> StatsQueryView {
        StatsQueryView { options: options_view(self.options@), print_map: self.print_map }
    }
}

/// The parameters of a query for the player with identity `id`: what is
/// asked for, then how many months back, then the map, as far as each is
/// given. Only the top ten are asked without the player's identity.
pub open spec fn stats_options(
    id: Seq<char>,
    choice: Option<QueryTypeChoice>,
    months: Option<i32>,
    map: Option<Seq<char>>,
) -> Seq<(Seq<char>, Seq<char>)> {
    (match choice {
        Some(QueryTypeChoice::Maps) => seq![("steamid"@, stats_form(id)), ("option"@, "maps"@)],
        Some(QueryTypeChoice::Top10) => seq![("mapCountLimit"@, "10"@), ("option"@, "top10"@)],
        None => seq![("steamid"@, stats_form(id))],
    }) + (match months {
        Some(m) => seq![("months"@, signed_decimal_text(m as int))],
        None => Seq::empty(),
    }) + (match map {
        Some(name) => seq![("map"@, name)],
        None => Seq::empty(),
    })
}

/// The query that `user` asks.
pub open spec fn stats_query_of(
    v: DataView,
    user: u64,
    choice: Option<QueryTypeChoice>,
    months: Option<i32>,
    map: Option<Seq<char>>,
) -> StatsQueryView {
    StatsQueryView {
        options: stats_options(v.steam_id_cache[user], choice, months, map),
        print_map: choice == Some(QueryTypeChoice::Maps),
    }
}

/// A status of the statistics service that comes with an answer.
pub open spec fn stats_answered(status: u16) -> bool {
    status == 200
}

/// Whether the statistics service answered.
pub fn stats_response_ok(status: u16) -> (ok: bool)
    ensures
        ok == stats_answered(status),
{
    status == 200
}

/// The game identity `id` with the universe digit written 1.
fn stats_form_of(id: &String) -> (r: String)
    requires
        steam_id_shape(id@),
    ensures
        r@ == stats_form(id@),
{
    let s = id.as_str();
    let n = s.unicode_len();
    proof {
        reveal_strlit("1");
    }
    let mut r = String::from_str(s.substring_char(0, 6));
    r.append("1");
    r.append(s.substring_char(7, n));
    r
}

fn pair(key: &str, value: String) -> (p: (String, String))
    ensures
        p.0@ == key@,
        p.1@ == value@,
{
    (String::from_str(key), value)
}

impl Data {
    /// The query to the statistics service that `user` asks, for a kind of
    /// answer, a number of months and a map, as far as each is given.
    pub fn stats_query(
        &self,
        user: u64,
        choice: Option<QueryTypeChoice>,
        months: Option<i32>,
        map: Option<String>,
    ) -> (r: Result<StatsQuery, ValidationError>)
        requires
            self.wf(),
        ensures
            match r {
                Ok(query) => self@.steam_id_cache.contains_key(user) && query@ == stats_query_of(
                    self@,
                    user,
                    choice,
                    months,
                    match map {
                        Some(name) => Some(name@),
                        None => None,
                    },
                ),
                Err(e) => e == ValidationError::MissingIdentity
                    && !self@.steam_id_cache.contains_key(user),
            },
    {
        let id = match lookup(&self.steam_id_cache, user) {
            Some(id) => {
                assert(self@.steam_id_cache.contains_key(user));
                stats_form_of(id)
            },
            None => {
                return Err(ValidationError::MissingIdentity);
            },
        };
        let mut options: Vec<(String, String)> = Vec::new();
        let mut print_map = false;
        match choice {
            Some(QueryTypeChoice::Maps) => {
                options.push(pair("steamid", id));
                options.push(pair("option", String::from_str("maps")));
                print_map = true;
            },
            Some(QueryTypeChoice::Top10) => {
                options.push(pair("mapCountLimit", String::from_str("10")));
                options.push(pair("option", String::from_str("top10")));
            },
            None => {
                options.push(pair("steamid", id));
            },
        }
        if let Some(m) = months {
            let mut text = String::new();
            push_signed_decimal(&mut text, m as i64);
            options.push(pair("months", text));
        }
        if let Some(name) = map {
            options.push(pair("map", name));
        }
        assert(options_view(options@) =~= stats_options(
            self@.steam_id_cache[user],
            choice,
            months,
            match map {
                Some(name) => Some(name@),
                None => None,
            },
        ));
        Ok(StatsQuery { options, print_map })
    }
}

} // verus!

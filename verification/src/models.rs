//! Data model of the service: mappings, visits, request and response shapes.
//!
//! Timestamps are milliseconds since the Unix epoch, carried as `i64`.
//! Each executable type has a ghost view over `Seq<char>` and `int`, and
//! every contract in the crate speaks over those views.

use vstd::prelude::*;

verus! {

/// A durable mapping from a short code to its target URL.
///
/// `id` is the short code itself: the primary key, unique across the store.
pub struct UrlRecord {
    pub id: String,
    pub original_url: String,
    pub created_at: i64,
    pub expires_at: Option<i64>,
}

/// Ghost view of a [`UrlRecord`].
pub ghost struct UrlRecordV {
    pub id: Seq<char>,
    pub original_url: Seq<char>,
    pub created_at: int,
    pub expires_at: Option<int>,
}

impl View for UrlRecord {
    type V = UrlRecordV;

    open spec fn view(&self) -> UrlRecordV {
        UrlRecordV {
            id: self.id@,
            original_url: self.original_url@,
            created_at: self.created_at as int,
            expires_at: match self.expires_at {
                Some(t) => Some(t as int),
                None => None,
            },
        }
    }
}

impl DeepView for UrlRecord {
    type V = UrlRecordV;

    open spec fn deep_view(&self) -> UrlRecordV {
        self.view()
    }
}

/// One recorded redirect resolution, kept for statistics.
pub struct VisitEvent {
    pub url_code: String,
    pub ip_address: Option<String>,
    pub user_agent: Option<String>,
    pub visited_at: i64,
}

/// Ghost view of a [`VisitEvent`].
pub ghost struct VisitEventV {
    pub url_code: Seq<char>,
    pub ip_address: Option<Seq<char>>,
    pub user_agent: Option<Seq<char>>,
    pub visited_at: int,
}

impl View for VisitEvent {
    type V = VisitEventV;

    open spec fn view(&self) -> VisitEventV {
        VisitEventV {
            url_code: self.url_code@,
            ip_address: match self.ip_address {
                Some(ref s) => Some(s@),
                None => None,
            },
            user_agent: match self.user_agent {
                Some(ref s) => Some(s@),
                None => None,
            },
            visited_at: self.visited_at as int,
        }
    }
}

impl DeepView for VisitEvent {
    type V = VisitEventV;

    open spec fn deep_view(&self) -> VisitEventV {
        self.view()
    }
}

/// One visit as reported by the statistics query.
pub struct VisitStats {
    pub ip_address: Option<String>,
    pub user_agent: Option<String>,
    pub visited_at: i64,
}

/// Ghost view of a [`VisitStats`].
pub ghost struct VisitStatsV {
    pub ip_address: Option<Seq<char>>,
    pub user_agent: Option<Seq<char>>,
    pub visited_at: int,
}

impl View for VisitStats {
    type V = VisitStatsV;

    open spec fn view(&self) -> VisitStatsV {
        VisitStatsV {
            ip_address: match self.ip_address {
                Some(ref s) => Some(s@),
                None => None,
            },
            user_agent: match self.user_agent {
                Some(ref s) => Some(s@),
                None => None,
            },
            visited_at: self.visited_at as int,
        }
    }
}

impl DeepView for VisitStats {
    type V = VisitStatsV;

    open spec fn deep_view(&self) -> VisitStatsV {
        self.view()
    }
}

/// The statistics view a visit event presents: everything but the code.
pub open spec fn stats_of(ev: VisitEventV) -> VisitStatsV {
    VisitStatsV {
        ip_address: ev.ip_address,
        user_agent: ev.user_agent,
        visited_at: ev.visited_at,
    }
}

/// A request to create a new mapping.
pub struct CreateUrlRequest {
    pub url: String,
    pub custom_code: Option<String>,
    pub expires_at: Option<i64>,
}

/// A freshly created mapping together with its constructed short URL.
pub struct UrlResponse {
    pub short_code: String,
    pub original_url: String,
    pub short_url: String,
    pub expires_at: Option<i64>,
}

/// The statistics snapshot for one code: its target, the total number of
/// visits ever recorded, and a bounded window of the most recent ones.
pub struct StatsResponse {
    pub url: String,
    pub original_url: String,
    pub total_visits: u64,
    pub visits: Vec<VisitStats>,
}

/// A mapping is expired when it carries an expiration timestamp that lies
/// strictly before the lookup time.
pub open spec fn expired(rec: UrlRecordV, now: int) -> bool {
    match rec.expires_at {
        Some(t) => t < now,
        None => false,
    }
}

/// Ghost view of an optional timestamp.
pub open spec fn opt_i64_view(t: Option<i64>) -> Option<int> {
    match t {
        Some(t) => Some(t as int),
        None => None,
    }
}

/// Ghost view of an optional borrowed string.
pub open spec fn opt_str_view(s: Option<&String>) -> Option<Seq<char>> {
    match s {
        Some(s) => Some(s@),
        None => None,
    }
}

} // verus!

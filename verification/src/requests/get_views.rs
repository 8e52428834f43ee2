//! The `getViews` builder.

use crate::chars::chars_to_string;
use crate::form::append_str;
use crate::form::append_urlenc;
use crate::form::urlenc;
use super::append_opt_int;
use super::field_opt_int;
use super::ApiRequest;
use super::NoPath;
use super::Path;
use vstd::prelude::*;

verus! {

/// Builder of `getViews`: `path` is required; year, month, day and hour
/// narrow the count when set.
pub struct GetViews<P> {
    /// The operation's endpoint URL.
    pub method_name: String,
    /// Required. Path to the page.
    pub path: P,
    /// If passed, the views for the requested year.
    pub year: Option<i32>,
    /// If passed, the views for the requested month.
    pub month: Option<i32>,
    /// If passed, the views for the requested day.
    pub day: Option<i32>,
    /// If passed, the views for the requested hour.
    pub hour: Option<i32>,
}

/// The form body of a `getViews` request.
pub open spec fn get_views_body(
    path: Seq<char>,
    year: Option<i32>,
    month: Option<i32>,
    day: Option<i32>,
    hour: Option<i32>,
) -> Seq<char> {
    "path="@ + urlenc(path) + field_opt_int("&year="@, year) + field_opt_int("&month="@, month)
        + field_opt_int("&day="@, day) + field_opt_int("&hour="@, hour)
}

impl GetViews<NoPath> {
    /// A fresh builder with nothing filled, bound to its endpoint.
    pub(crate) fn new(method_name: String) -> (r: GetViews<NoPath>)
        ensures
            r.method_name@ == method_name@,
            r.year is None,
            r.month is None,
            r.day is None,
            r.hour is None,
    {
        GetViews { method_name, path: NoPath, year: None, month: None, day: None, hour: None }
    }
}

impl<P> GetViews<P> {
    /// Required. Path to the Telegraph page.
    pub fn path(self, path: &str) -> (r: GetViews<Path>)
        ensures
            r.method_name@ == self.method_name@,
            r.path.0@ == path@,
            r.year == self.year,
            r.month == self.month,
            r.day == self.day,
            r.hour == self.hour,
    {
        GetViews {
            method_name: self.method_name,
            path: Path(String::from_str(path)),
            year: self.year,
            month: self.month,
            day: self.day,
            hour: self.hour,
        }
    }

    /// Required if month is passed. The year to count views for.
    pub fn year(self, year: i32) -> (r: GetViews<P>)
        ensures
            r.method_name@ == self.method_name@,
            r.path == self.path,
            r.year matches Some(y) && y == year,
            r.month == self.month,
            r.day == self.day,
            r.hour == self.hour,
    {
        GetViews {
            method_name: self.method_name,
            path: self.path,
            year: Some(year),
            month: self.month,
            day: self.day,
            hour: self.hour,
        }
    }

    /// Required if day is passed. The month to count views for.
    pub fn month(self, month: i32) -> (r: GetViews<P>)
        ensures
            r.method_name@ == self.method_name@,
            r.path == self.path,
            r.year == self.year,
            r.month matches Some(m) && m == month,
            r.day == self.day,
            r.hour == self.hour,
    {
        GetViews {
            method_name: self.method_name,
            path: self.path,
            year: self.year,
            month: Some(month),
            day: self.day,
            hour: self.hour,
        }
    }

    /// Required if hour is passed. The day to count views for.
    pub fn day(self, day: i32) -> (r: GetViews<P>)
        ensures
            r.method_name@ == self.method_name@,
            r.path == self.path,
            r.year == self.year,
            r.month == self.month,
            r.day matches Some(d) && d == day,
            r.hour == self.hour,
    {
        GetViews {
            method_name: self.method_name,
            path: self.path,
            year: self.year,
            month: self.month,
            day: Some(day),
            hour: self.hour,
        }
    }

    /// If passed, the views for the requested hour are returned.
    pub fn hour(self, hour: i32) -> (r: GetViews<P>)
        ensures
            r.method_name@ == self.method_name@,
            r.path == self.path,
            r.year == self.year,
            r.month == self.month,
            r.day == self.day,
            r.hour matches Some(h) && h == hour,
    {
        GetViews {
            method_name: self.method_name,
            path: self.path,
            year: self.year,
            month: self.month,
            day: self.day,
            hour: Some(hour),
        }
    }
}

impl GetViews<Path> {
    /// The ready-to-send request; only this fully-filled state has it.
    pub fn into_request(self) -> (r: ApiRequest)
        ensures
            r.url@ == self.method_name@,
            r.body@ == get_views_body(
                self.path.0@,
                self.year,
                self.month,
                self.day,
                self.hour,
            ),
    {
        let mut out: Vec<char> = Vec::new();
        append_str("path=", &mut out);
        append_urlenc(self.path.0.as_str(), &mut out);
        append_opt_int("&year=", &self.year, &mut out);
        append_opt_int("&month=", &self.month, &mut out);
        append_opt_int("&day=", &self.day, &mut out);
        append_opt_int("&hour=", &self.hour, &mut out);
        let body = chars_to_string(&out);
        ApiRequest { url: self.method_name, body }
    }
}

} // verus!

//! The records that the service answers with, and their mathematical views.
//!
//! Every record is filled once, from one answer, and only read after that.
//! Measured quantities that the service sends as real numbers (a station's
//! coordinates, the per-pollutant readings) are not part of these records:
//! nothing here computes with them, and whoever decodes an answer keeps
//! them.

use vstd::prelude::*;

verus! {

/// The wrapper round every answer of the service.
#[derive(Clone, Debug, PartialEq, Eq)]
pub struct ResponseEnvelope<T> {
    /// `"ok"` when the call succeeded.
    pub status: String,
    /// The payload; its shape depends on the call and on `status`.
    pub data: T,
}

/// Where a station is: its display name and its page.
#[derive(Clone, Debug, PartialEq, Eq)]
pub struct CityRef {
    pub name: String,
    pub url: String,
}

/// When a search result was last measured.
#[derive(Clone, Debug, PartialEq, Eq)]
pub struct StationTime {
    pub stime: String,
    pub tz: String,
    pub vtime: u32,
}

/// One candidate of a keyword search.
#[derive(Clone, Debug, PartialEq, Eq)]
pub struct StationSummary {
    /// The current index as the service wrote it. Not always a number: a
    /// station without a reading has a placeholder such as `-`.
    pub aqi: String,
    pub station: CityRef,
    pub time: StationTime,
    pub uid: u32,
}

/// A credit for a source of data.
#[derive(Clone, Debug, PartialEq, Eq)]
pub struct Attribution {
    pub url: String,
    pub name: String,
}

/// One day of a forecast for one pollutant.
#[derive(Clone, Debug, PartialEq, Eq)]
pub struct ForecastStats {
    pub avg: u32,
    pub day: String,
    pub max: u32,
    pub min: u32,
}

/// Daily forecasts, one list per pollutant.
#[derive(Clone, Debug, PartialEq, Eq)]
pub struct DailyForecast {
    pub o3: Vec<ForecastStats>,
    pub pm10: Vec<ForecastStats>,
    pub pm25: Vec<ForecastStats>,
    pub uvi: Vec<ForecastStats>,
}

/// The forecast of a station; `daily` is `None` where the service has none.
#[derive(Clone, Debug, PartialEq, Eq)]
pub struct Forecast {
    pub daily: Option<DailyForecast>,
}

/// Diagnostic data of a feed.
#[derive(Clone, Debug, PartialEq, Eq)]
pub struct SyncDebug {
    pub sync: String,
}

/// The full feed of one station.
#[derive(Clone, Debug, PartialEq, Eq)]
pub struct StationDetail {
    /// The current index; always a number here.
    pub aqi: u32,
    pub idx: u32,
    pub attributions: Vec<Attribution>,
    pub city: CityRef,
    pub dominant_pollutant: String,
    pub forecast: Forecast,
    pub debug: SyncDebug,
}

/// What a [`CityRef`] holds.
pub struct CityRefView {
    pub name: Seq<char>,
    pub url: Seq<char>,
}

/// What a [`StationTime`] holds.
pub struct StationTimeView {
    pub stime: Seq<char>,
    pub tz: Seq<char>,
    pub vtime: nat,
}

/// What a [`StationSummary`] holds.
pub struct StationSummaryView {
    pub aqi: Seq<char>,
    pub station: CityRefView,
    pub time: StationTimeView,
    pub uid: nat,
}

/// What an [`Attribution`] holds.
pub struct AttributionView {
    pub url: Seq<char>,
    pub name: Seq<char>,
}

/// What a [`ForecastStats`] holds.
pub struct ForecastStatsView {
    pub avg: nat,
    pub day: Seq<char>,
    pub max: nat,
    pub min: nat,
}

/// What a [`DailyForecast`] holds.
pub struct DailyForecastView {
    pub o3: Seq<ForecastStatsView>,
    pub pm10: Seq<ForecastStatsView>,
    pub pm25: Seq<ForecastStatsView>,
    pub uvi: Seq<ForecastStatsView>,
}

/// What a [`StationDetail`] holds.
pub struct StationDetailView {
    pub aqi: nat,
    pub idx: nat,
    pub attributions: Seq<AttributionView>,
    pub city: CityRefView,
    pub dominant_pollutant: Seq<char>,
    pub daily: Option<DailyForecastView>,
    pub sync: Seq<char>,
}

impl View for CityRef {
    type V = CityRefView;

    open spec fn view(&self) -> CityRefView {
        CityRefView { name: self.name@, url: self.url@ }
    }
}

impl View for StationTime {
    type V = StationTimeView;

    open spec fn view(&self) -> StationTimeView {
        StationTimeView { stime: self.stime@, tz: self.tz@, vtime: self.vtime as nat }
    }
}

impl View for StationSummary {
    type V = StationSummaryView;

    open spec fn view(&self) -> StationSummaryView {
        StationSummaryView {
            aqi: self.aqi@,
            station: self.station@,
            time: self.time@,
            uid: self.uid as nat,
        }
    }
}

impl View for Attribution {
    type V = AttributionView;

    open spec fn view(&self) -> AttributionView {
        AttributionView { url: self.url@, name: self.name@ }
    }
}

impl View for ForecastStats {
    type V = ForecastStatsView;

    open spec fn view(&self) -> ForecastStatsView {
        ForecastStatsView {
            avg: self.avg as nat,
            day: self.day@,
            max: self.max as nat,
            min: self.min as nat,
        }
    }
}

impl View for DailyForecast {
    type V = DailyForecastView;

    open spec fn view(&self) -> DailyForecastView {
        DailyForecastView {
            o3: self.o3@.map_values(|s: ForecastStats| s@),
            pm10: self.pm10@.map_values(|s: ForecastStats| s@),
            pm25: self.pm25@.map_values(|s: ForecastStats| s@),
            uvi: self.uvi@.map_values(|s: ForecastStats| s@),
        }
    }
}

impl View for StationDetail {
    type V = StationDetailView;

    open spec fn view(&self) -> StationDetailView {
        StationDetailView {
            aqi: self.aqi as nat,
            idx: self.idx as nat,
            attributions: self.attributions@.map_values(|a: Attribution| a@),
            city: self.city@,
            dominant_pollutant: self.dominant_pollutant@,
            daily: match self.forecast.daily {
                Some(daily) => Some(daily@),
                None => None,
            },
            sync: self.debug.sync@,
        }
    }
}

impl<T> ResponseEnvelope<T> {
    /// Whether the service reported success.
    pub fn is_ok(&self) -> (ok: bool)
        ensures
            ok == (self.status@ == "ok"@),
    {
        crate::text::same_text(self.status.as_str(), "ok")
    }
}

} // verus!

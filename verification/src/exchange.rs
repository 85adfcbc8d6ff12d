//! The exchange's status and schedule.

use vstd::prelude::*;
use crate::json::{field_reads, get_field, get_opt_field, opt_field_reads, FromJson, JsonModel};

verus! {

/// The path of the exchange's status.
pub const EXCHANGE_STATUS_PATH: &'static str = "/exchange/status";

/// The path of the exchange's schedule.
pub const EXCHANGE_SCHEDULE_PATH: &'static str = "/exchange/schedule";

/// The standard trading hours and the maintenance windows of the exchange.
#[derive(Debug)]
pub struct ExchangeSchedule {
    pub maintenance_windows: Vec<MaintenanceWindow>,
    pub standard_hours: Vec<WeeklySchedule>,
}

/// The answer of the schedule endpoint.
#[derive(Debug)]
pub struct ExchangeScheduleResponse {
    pub schedule: ExchangeSchedule,
}

/// Whether the exchange and trading on it are active.
#[derive(Debug)]
pub struct ExchangeStatus {
    pub trading_active: bool,
    pub exchange_active: bool,
    pub exchange_estimated_resume_time: Option<String>,
}

/// A window during which the exchange may be unavailable.
#[derive(Debug)]
pub struct MaintenanceWindow {
    pub start_datetime: String,
    pub end_datetime: String,
}

/// A weekly schedule with the trading sessions of each day.
#[derive(Debug)]
pub struct WeeklySchedule {
    pub start_time: String,
    pub end_time: String,
    pub monday: Vec<DailySchedule>,
    pub tuesday: Vec<DailySchedule>,
    pub wednesday: Vec<DailySchedule>,
    pub thursday: Vec<DailySchedule>,
    pub friday: Vec<DailySchedule>,
    pub saturday: Vec<DailySchedule>,
    pub sunday: Vec<DailySchedule>,
}

/// The opening and closing times of one day.
#[derive(Debug)]
pub struct DailySchedule {
    pub open_time: String,
    pub close_time: String,
}

/// Reads as the status of the exchange. Each field is the
/// member of its name; an optional one may be missing or `null`; other
/// members are passed over.
impl FromJson for ExchangeStatus {
    open spec fn reads(&self, m: JsonModel) -> bool {
        &&& field_reads(self.trading_active, m, "trading_active"@)
        &&& field_reads(self.exchange_active, m, "exchange_active"@)
        &&& opt_field_reads(
            self.exchange_estimated_resume_time,
            m,
            "exchange_estimated_resume_time"@,
        )
    }

    fn from_json(v: &serde_json::Value) -> (r: Option<ExchangeStatus>) {
        let trading_active = get_field(v, "trading_active")?;
        let exchange_active = get_field(v, "exchange_active")?;
        let exchange_estimated_resume_time = get_opt_field(v, "exchange_estimated_resume_time")?;
        Some(ExchangeStatus { trading_active, exchange_active, exchange_estimated_resume_time })
    }
}

/// Reads as the trading hours of one day. Each field is the
/// member of its name; an optional one may be missing or `null`; other
/// members are passed over.
impl FromJson for DailySchedule {
    open spec fn reads(&self, m: JsonModel) -> bool {
        &&& field_reads(self.open_time, m, "open_time"@)
        &&& field_reads(self.close_time, m, "close_time"@)
    }

    fn from_json(v: &serde_json::Value) -> (r: Option<DailySchedule>) {
        let open_time = get_field(v, "open_time")?;
        let close_time = get_field(v, "close_time")?;
        Some(DailySchedule { open_time, close_time })
    }
}

/// Reads as a maintenance window. Each field is the
/// member of its name; an optional one may be missing or `null`; other
/// members are passed over.
impl FromJson for MaintenanceWindow {
    open spec fn reads(&self, m: JsonModel) -> bool {
        &&& field_reads(self.start_datetime, m, "start_datetime"@)
        &&& field_reads(self.end_datetime, m, "end_datetime"@)
    }

    fn from_json(v: &serde_json::Value) -> (r: Option<MaintenanceWindow>) {
        let start_datetime = get_field(v, "start_datetime")?;
        let end_datetime = get_field(v, "end_datetime")?;
        Some(MaintenanceWindow { start_datetime, end_datetime })
    }
}

/// Reads as a weekly schedule. Each field is the
/// member of its name; an optional one may be missing or `null`; other
/// members are passed over.
impl FromJson for WeeklySchedule {
    open spec fn reads(&self, m: JsonModel) -> bool {
        &&& field_reads(self.start_time, m, "start_time"@)
        &&& field_reads(self.end_time, m, "end_time"@)
        &&& field_reads(self.monday, m, "monday"@)
        &&& field_reads(self.tuesday, m, "tuesday"@)
        &&& field_reads(self.wednesday, m, "wednesday"@)
        &&& field_reads(self.thursday, m, "thursday"@)
        &&& field_reads(self.friday, m, "friday"@)
        &&& field_reads(self.saturday, m, "saturday"@)
        &&& field_reads(self.sunday, m, "sunday"@)
    }

    fn from_json(v: &serde_json::Value) -> (r: Option<WeeklySchedule>) {
        let start_time = get_field(v, "start_time")?;
        let end_time = get_field(v, "end_time")?;
        let monday = get_field(v, "monday")?;
        let tuesday = get_field(v, "tuesday")?;
        let wednesday = get_field(v, "wednesday")?;
        let thursday = get_field(v, "thursday")?;
        let friday = get_field(v, "friday")?;
        let saturday = get_field(v, "saturday")?;
        let sunday = get_field(v, "sunday")?;
        Some(WeeklySchedule {
            start_time,
            end_time,
            monday,
            tuesday,
            wednesday,
            thursday,
            friday,
            saturday,
            sunday,
        })
    }
}

/// Reads as the schedule of the exchange. Each field is the
/// member of its name; an optional one may be missing or `null`; other
/// members are passed over.
impl FromJson for ExchangeSchedule {
    open spec fn reads(&self, m: JsonModel) -> bool {
        &&& field_reads(self.maintenance_windows, m, "maintenance_windows"@)
        &&& field_reads(self.standard_hours, m, "standard_hours"@)
    }

    fn from_json(v: &serde_json::Value) -> (r: Option<ExchangeSchedule>) {
        let maintenance_windows = get_field(v, "maintenance_windows")?;
        let standard_hours = get_field(v, "standard_hours")?;
        Some(ExchangeSchedule { maintenance_windows, standard_hours })
    }
}

/// Reads as the answer that holds the schedule. Each field is the
/// member of its name; an optional one may be missing or `null`; other
/// members are passed over.
impl FromJson for ExchangeScheduleResponse {
    open spec fn reads(&self, m: JsonModel) -> bool {
        &&& field_reads(self.schedule, m, "schedule"@)
    }

    fn from_json(v: &serde_json::Value) -> (r: Option<ExchangeScheduleResponse>) {
        let schedule = get_field(v, "schedule")?;
        Some(ExchangeScheduleResponse { schedule })
    }
}

} // verus!

use crate::error::Error;
use vstd::prelude::*;

verus! {

/// The body of every answer of the user routes.
#[derive(Clone, Debug)]
pub struct ApiResponse {
    success: bool,
}

impl ApiResponse {
    /// Whether the answer reports success.
    pub closed spec fn reports_success(&self) -> bool {
        self.success
    }

    /// The answer to a request that was carried out.
    pub fn success() -> (response: ApiResponse)
        ensures
            response.reports_success(),
    {
        ApiResponse { success: true }
    }

    /// The answer to a request that failed. Its body is that of `success`.
    pub fn failure() -> (response: ApiResponse)
        ensures
            response.reports_success(),
    {
        ApiResponse { success: true }
    }

    /// The answer to a request that names a subscriber, given the subscriber
    /// that the store found and changed: success, or "not found" where it
    /// found none.
    pub fn for_user(user_id: Option<u128>) -> (r: Result<ApiResponse, Error>)
        ensures
            match r {
                Ok(response) => user_id is Some && response.reports_success(),
                Err(e) => user_id is None && e is NotFound,
            },
    {
        match user_id {
            Some(_) => Ok(ApiResponse::success()),
            None => Err(Error::NotFound),
        }
    }

    /// Whether the answer reports success.
    pub fn is_success(&self) -> (success: bool)
        ensures
            success == self.reports_success(),
    {
        self.success
    }
}

/// An answer that carries one message.
#[derive(Debug)]
pub struct JsonResponse {
    pub payload: String,
}

impl JsonResponse {
    /// An answer that carries `payload`.
    pub fn new(payload: &str) -> (response: JsonResponse)
        ensures
            response.payload@ == payload@,
    {
        JsonResponse { payload: payload.to_owned() }
    }
}

/// What the registration form sends in.
#[derive(Clone, Debug)]
pub struct UserRegisterBody {
    pub email: String,
    pub alert_threshold: String,
    pub locations: Vec<i64>,
}

impl UserRegisterBody {
    /// Whether the form can be sent: it names an address and at least one
    /// place.
    pub fn is_valid(&self) -> (valid: bool)
        ensures
            valid == (self.email@.len() > 0 && self.locations@.len() > 0),
    {
        !self.email.as_str().is_empty() && self.locations.len() > 0
    }
}

/// The current weather at a place.
#[derive(Debug)]
pub struct Weather {
    pub location_id: u32,
    pub description: String,
    pub cloud_cover: u8,
}

/// The cloud cover as the weather service reports it, in percent.
#[derive(Debug)]
pub struct Clouds {
    pub all: u8,
}

/// One of the weather conditions that the weather service reports.
#[derive(Debug)]
pub struct WeatherDetail {
    pub description: String,
}

/// The report of the weather service for one place. The first of the
/// conditions is the primary one.
#[derive(Debug)]
pub struct WeatherBody {
    pub clouds: Clouds,
    pub weather: Vec<WeatherDetail>,
    pub id: u32,
}

impl Weather {
    /// The weather that a report gives: its primary condition and its cloud
    /// cover. A report always holds at least one condition.
    pub fn from(weather_body: WeatherBody) -> (weather: Weather)
        requires
            weather_body.weather@.len() > 0,
        ensures
            weather.location_id == weather_body.id,
            weather.description == weather_body.weather@[0].description,
            weather.cloud_cover == weather_body.clouds.all,
    {
        Weather {
            location_id: weather_body.id,
            description: weather_body.weather[0].description.clone(),
            cloud_cover: weather_body.clouds.all,
        }
    }
}

} // verus!

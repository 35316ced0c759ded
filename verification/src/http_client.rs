use vstd::prelude::*;

verus! {

/// Default geolocation API hostname.
pub const GEOLOCATION_API_HOST: &'static str = "https://ipapi.co";

/// Default weather API hostname.
pub const WEATHER_API_HOST: &'static str = "https://api.weatherapi.com";

/// The status code of a reply that is read further.
pub const STATUS_OK: u16 = 200;

/// What the requests to the two foreign APIs are made from.
///
/// The embedding program sends the requests; this type says where to, and
/// with what.
pub struct HttpClient {
    weather_api_key: String,
    geolocation_api_host: String,
    weather_api_host: String,
}

/// The three texts that an `HttpClient` holds.
pub struct HttpClientView {
    pub weather_api_key: Seq<char>,
    pub geolocation_api_host: Seq<char>,
    pub weather_api_host: Seq<char>,
}

impl View for HttpClient {
    type V = HttpClientView;

    closed spec fn view(&self) -> HttpClientView {
        HttpClientView {
            weather_api_key: self.weather_api_key@,
            geolocation_api_host: self.geolocation_api_host@,
            weather_api_host: self.weather_api_host@,
        }
    }
}

/// Errors of a call to a foreign API.
#[derive(Debug, Clone, PartialEq, Eq)]
pub enum ClientError {
    /// The request could not be sent, or its reply could not be read.
    RequestFailed,
    /// The reply's text is not of the expected form.
    ParsingFailed,
    /// The reply's JSON is not of the expected form.
    JsonParsingFailed,
    /// The API replied with a status other than `200 OK`.
    ApiInternalError(String),
}

/// A coordinate, as parsed from the geolocation API's reply. `N` is the type
/// in which the embedding program holds a number.
#[derive(Debug, Clone, PartialEq)]
pub struct Coordinate<N> {
    pub latitude: N,
    pub longitude: N,
}

/// What a call to the geolocation API gives.
#[derive(Debug, Clone, PartialEq)]
pub struct GeolocationApiResponse<N> {
    pub latitude: N,
    pub longitude: N,
}

/// What a call to the weather API gives.
///
/// The API also describes the place that the coordinates lie in; that part
/// is discarded.
#[derive(Debug, Clone, PartialEq)]
pub struct WeatherApiResponse<N> {
    pub location: Location,
    pub current: Current<N>,
}

/// Stands for the `location` section of the weather API's reply, which is
/// discarded.
#[derive(Debug, Clone, Copy, PartialEq, Eq, Structural)]
pub struct Location;

/// What the weather API says of the weather at a place.
#[derive(Debug, Clone, PartialEq)]
pub struct Current<N> {
    pub last_updated: String,
    pub temp_c: N,
    pub condition: Condition,
    pub feelslike_c: N,
}

/// The weather condition, in words.
#[derive(Debug, Clone, PartialEq, Eq)]
pub struct Condition {
    pub text: String,
}

/// How a status code reads in a message: the number and, where it is a
/// status code of HTTP, its canonical reason phrase.
pub uninterp spec fn status_line(status: u16) -> Seq<char>;

/// Calls `StatusCode::from_u16` of `reqwest` and formats the status code as
/// its `Display` does; a number that is no status code is formatted as it
/// stands. The contract names the outcome `status_line`, a function of the
/// argument alone.
#[verifier::external_body]
fn describe_status(status: u16) -> (text: String)
    ensures
        text@ == status_line(status),
{
    match reqwest::StatusCode::from_u16(status) {
        Ok(code) => code.to_string(),
        Err(_) => status.to_string(),
    }
}

/// Calls `str::split_once` of std, which splits a string on the first
/// occurrence of the delimiter: the contract says that the two parts, with
/// the delimiter between them, make up the string, that the first part is
/// without the delimiter, and that `None` comes back exactly when the string
/// is without it.
#[verifier::external_body]
fn split_once_at<'a>(s: &'a str, delimiter: char) -> (r: Option<(&'a str, &'a str)>)
    ensures
        match r {
            Some((head, tail)) => s@ == head@ + seq![delimiter] + tail@ && !head@.contains(
                delimiter,
            ),
            None => !s@.contains(delimiter),
        },
{
    s.split_once(delimiter)
}

impl ClientError {
    /// The text of the error.
    pub open spec fn message_text(&self) -> Seq<char> {
        match self {
            ClientError::RequestFailed => "API request failed"@,
            ClientError::ParsingFailed => "parsing API response failed"@,
            ClientError::JsonParsingFailed => "parsing API response failed"@,
            ClientError::ApiInternalError(detail) => "API internal error: "@ + detail@,
        }
    }

    /// Describes the error in words.
    pub fn message(&self) -> (text: String)
        ensures
            text@ == self.message_text(),
    {
        match self {
            ClientError::RequestFailed => String::from_str("API request failed"),
            ClientError::ParsingFailed => String::from_str("parsing API response failed"),
            ClientError::JsonParsingFailed => String::from_str("parsing API response failed"),
            ClientError::ApiInternalError(detail) => String::from_str("API internal error: ").concat(
                detail.as_str(),
            ),
        }
    }
}

impl HttpClient {
    /// Creates an `HttpClient` with the default hostnames.
    pub fn new(weather_api_key: &str) -> (client: Self)
        ensures
            client@.weather_api_key == weather_api_key@,
            client@.geolocation_api_host == GEOLOCATION_API_HOST@,
            client@.weather_api_host == WEATHER_API_HOST@,
    {
        Self::new_with_hosts(GEOLOCATION_API_HOST, WEATHER_API_HOST, weather_api_key)
    }

    /// Creates an `HttpClient` with the given foreign API hostnames.
    ///
    /// Used in testing, to direct the calls to a local endpoint.
    pub fn new_with_hosts(
        geolocation_api_host: &str,
        weather_api_host: &str,
        weather_api_key: &str,
    ) -> (client: Self)
        ensures
            client@.weather_api_key == weather_api_key@,
            client@.geolocation_api_host == geolocation_api_host@,
            client@.weather_api_host == weather_api_host@,
    {
        Self {
            weather_api_key: weather_api_key.to_owned(),
            geolocation_api_host: geolocation_api_host.to_owned(),
            weather_api_host: weather_api_host.to_owned(),
        }
    }

    /// The address that the coordinates of an IP are asked at.
    pub fn coordinates_url(&self, ip: &str) -> (url: String)
        ensures
            url@ == self@.geolocation_api_host + "/"@ + ip@ + "/latlong/"@,
    {
        self.geolocation_api_host.clone().concat("/").concat(ip).concat("/latlong/")
    }

    /// The address that the weather is asked at.
    pub fn weather_url(&self) -> (url: String)
        ensures
            url@ == self@.weather_api_host + "/v1/current.json"@,
    {
        self.weather_api_host.clone().concat("/v1/current.json")
    }

    /// The parameters of the query for the weather at a coordinate, whose
    /// two numbers are given as they are to be written: the place as `q`,
    /// and the API key as `key`.
    pub fn weather_query(&self, latitude: &str, longitude: &str) -> (query: Vec<(String, String)>)
        ensures
            query@.len() == 2,
            query@[0].0@ == "q"@,
            query@[0].1@ == latitude@ + ","@ + longitude@,
            query@[1].0@ == "key"@,
            query@[1].1@ == self@.weather_api_key,
    {
        let place = String::from_str(latitude).concat(",").concat(longitude);
        let mut query: Vec<(String, String)> = Vec::new();
        query.push((String::from_str("q"), place));
        query.push((String::from_str("key"), self.weather_api_key.clone()));
        query
    }
}

/// Decides from the status of the geolocation API's reply whether its body
/// is read.
///
/// # Errors
/// Returns `ApiInternalError`, with the status in its message, for every
/// status but `200 OK`.
pub fn check_status(status: u16) -> (r: Result<(), ClientError>)
    ensures
        status == STATUS_OK ==> r is Ok,
        status != STATUS_OK ==> (r matches Err(ClientError::ApiInternalError(detail)) && detail@
            == "API returned "@ + status_line(status)),
{
    if status == STATUS_OK {
        Ok(())
    } else {
        let detail = String::from_str("API returned ").concat(describe_status(status).as_str());
        Err(ClientError::ApiInternalError(detail))
    }
}

/// Splits the body of the geolocation API's reply, which is expected as
/// `LATITUDE,LONGITUDE`, at its first comma.
///
/// # Errors
/// Returns `ParsingFailed` for a body without a comma.
pub fn split_coordinates(body: &str) -> (r: Result<(String, String), ClientError>)
    ensures
        r is Ok <==> body@.contains(','),
        r matches Ok((latitude, longitude)) ==> body@ == latitude@ + seq![','] + longitude@
            && !latitude@.contains(','),
        r matches Err(e) ==> e is ParsingFailed,
{
    match split_once_at(body, ',') {
        Some((latitude, longitude)) => {
            proof {
                let whole = latitude@ + seq![','] + longitude@;
                assert(whole[latitude@.len() as int] == ',');
            }
            Ok((latitude.to_owned(), longitude.to_owned()))
        },
        None => Err(ClientError::ParsingFailed),
    }
}

impl<N> Coordinate<N> {
    /// Makes a coordinate from what parsing the two parts of the reply's
    /// body as numbers gave.
    ///
    /// # Errors
    /// Returns `ParsingFailed` where either part is no number.
    pub fn from_parts(latitude: Option<N>, longitude: Option<N>) -> (r: Result<Self, ClientError>)
        ensures
            match (latitude, longitude) {
                (Some(la), Some(lo)) => r matches Ok(c) && c.latitude == la && c.longitude == lo,
                _ => r matches Err(e) && e is ParsingFailed,
            },
    {
        match (latitude, longitude) {
            (Some(latitude), Some(longitude)) => Ok(Coordinate { latitude, longitude }),
            _ => Err(ClientError::ParsingFailed),
        }
    }
}

impl<N> GeolocationApiResponse<N> {
    /// The reply that holds a coordinate.
    pub fn from_coordinate(coordinate: Coordinate<N>) -> (response: Self)
        ensures
            response.latitude == coordinate.latitude,
            response.longitude == coordinate.longitude,
    {
        GeolocationApiResponse {
            latitude: coordinate.latitude,
            longitude: coordinate.longitude,
        }
    }
}

} // verus!

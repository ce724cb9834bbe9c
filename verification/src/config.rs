//! Configuration of the collecting server, and the requests it derives from it.

use vstd::prelude::*;

use crate::formats::{format_utc_timestamp, parse_url, url_with_query};

verus! {

/// Credentials of the station at PWSWeather.
#[derive(Clone, Debug)]
pub struct PwsWeatherConfig {
    pub id: String,
    pub password: String,
}

/// Configuration of the collecting server.
#[derive(Clone, Debug)]
pub struct ServerConfig {
    pub influx_url: String,
    pub influx_db: String,
    /// Host (and port) of the station on the local network.
    pub target_url: String,
    pub pws_weather: PwsWeatherConfig,
}

/// The address at which the station serves its readings, before parsing.
pub open spec fn station_data_url_of(target: Seq<char>) -> Seq<char> {
    "http://"@ + target + "/data"@
}

impl ServerConfig {
    /// The address at which the station serves its readings, as a parsed
    /// URL; `None` where the configured host does not make one.
    pub fn station_data_url(&self) -> (url: Option<String>)
        ensures
            crate::formats::option_text(url) == crate::formats::parsed_url_text(
                station_data_url_of(self.target_url@),
            ),
            forall|host: Seq<char>, port: Option<u16>|
                crate::formats::is_plain_host(host) && self.target_url@
                    == #[trigger] crate::formats::authority_text(host, port) ==> crate::formats::option_text(
                    url,
                ) == Some(
                    station_data_url_of(
                        crate::formats::authority_text(host, crate::formats::http_port(port)),
                    ),
                ),
    {
        let text = String::from_str("http://");
        let text = text.concat(self.target_url.as_str());
        let text = text.concat("/data");
        parse_url(text.as_str())
    }
}

/// The query of a PWSWeather update, as pairs of name and value.
pub open spec fn pws_query_of(
    id: Seq<char>,
    password: Seq<char>,
    dateutc: Seq<char>,
    tempf: Seq<char>,
    baromin: Seq<char>,
    humidity: Seq<char>,
    uv: Seq<char>,
) -> Seq<(Seq<char>, Seq<char>)> {
    seq![
        ("ID"@, id),
        ("PASSWORD"@, password),
        ("softwaretype"@, "CustomClient0.0.0"@),
        ("action"@, "updateraw"@),
        ("dateutc"@, dateutc),
        ("tempf"@, tempf),
        ("baromin"@, baromin),
        ("humidity"@, humidity),
        ("UV"@, uv),
    ]
}

fn pair(name: &str, value: &str) -> (p: (String, String))
    ensures
        p.0@ == name@,
        p.1@ == value@,
{
    (String::from_str(name), String::from_str(value))
}

impl PwsWeatherConfig {
    /// The query of an update to PWSWeather, in the order the service lists
    /// its fields: the station's credentials, the client's name, the update
    /// action, the time of the reading (UTC, `YYYY-MM-DD HH:MM:SS`), and the
    /// temperature (°F), pressure (inHg), humidity (%) and UV index as text.
    pub fn update_query(
        &self,
        dateutc: &str,
        tempf: &str,
        baromin: &str,
        humidity: &str,
        uv: &str,
    ) -> (query: Vec<(String, String)>)
        ensures
            crate::formats::pairs_view(query@) == pws_query_of(
                self.id@,
                self.password@,
                dateutc@,
                tempf@,
                baromin@,
                humidity@,
                uv@,
            ),
    {
        let mut query: Vec<(String, String)> = Vec::new();
        query.push(pair("ID", self.id.as_str()));
        query.push(pair("PASSWORD", self.password.as_str()));
        query.push(pair("softwaretype", "CustomClient0.0.0"));
        query.push(pair("action", "updateraw"));
        query.push(pair("dateutc", dateutc));
        query.push(pair("tempf", tempf));
        query.push(pair("baromin", baromin));
        query.push(pair("humidity", humidity));
        query.push(pair("UV", uv));
        assert(crate::formats::pairs_view(query@) =~= pws_query_of(
            self.id@,
            self.password@,
            dateutc@,
            tempf@,
            baromin@,
            humidity@,
            uv@,
        ));
        query
    }
}

/// The address of the PWSWeather update service.
pub open spec fn pws_update_service() -> Seq<char> {
    "https://pwsupdate.pwsweather.com/api/v1/submitwx"@
}

/// The pattern of the time of an update: UTC, `YYYY-MM-DD HH:MM:SS`.
pub open spec fn pws_date_pattern() -> Seq<char> {
    "%Y-%m-%d %H:%M:%S"@
}

/// The URL of a PWSWeather update at the Unix time `now_secs`.
pub open spec fn pws_update_url_of(
    id: Seq<char>,
    password: Seq<char>,
    now_secs: i64,
    tempf: Seq<char>,
    baromin: Seq<char>,
    humidity: Seq<char>,
    uv: Seq<char>,
) -> Option<Seq<char>> {
    match crate::formats::utc_timestamp_text(now_secs, pws_date_pattern()) {
        Some(dateutc) => crate::formats::url_with_query_text(
            pws_update_service(),
            pws_query_of(id, password, dateutc, tempf, baromin, humidity, uv),
        ),
        None => None,
    }
}

impl PwsWeatherConfig {
    /// The URL of an update to PWSWeather taken at the Unix time `now_secs`,
    /// with the readings as text; `None` where the time cannot be written.
    pub fn update_url(
        &self,
        now_secs: i64,
        tempf: &str,
        baromin: &str,
        humidity: &str,
        uv: &str,
    ) -> (url: Option<String>)
        ensures
            crate::formats::option_text(url) == pws_update_url_of(
                self.id@,
                self.password@,
                now_secs,
                tempf@,
                baromin@,
                humidity@,
                uv@,
            ),
            crate::formats::FIRST_FOUR_DIGIT_YEAR_SECS <= now_secs
                <= crate::formats::LAST_FOUR_DIGIT_YEAR_SECS ==> exists|dateutc: Seq<char>|
                crate::formats::is_utc_date_time_text(now_secs as int, dateutc)
                    && crate::formats::option_text(url) == #[trigger] crate::formats::url_with_query_text(
                    pws_update_service(),
                    pws_query_of(
                        self.id@,
                        self.password@,
                        dateutc,
                        tempf@,
                        baromin@,
                        humidity@,
                        uv@,
                    ),
                ),
    {
        let dateutc = match format_utc_timestamp(now_secs, "%Y-%m-%d %H:%M:%S") {
            Some(d) => d,
            None => return None,
        };
        let query = self.update_query(dateutc.as_str(), tempf, baromin, humidity, uv);
        let service = "https://pwsupdate.pwsweather.com/api/v1/submitwx";
        proof {
            reveal_strlit("https://pwsupdate.pwsweather.com/api/v1/submitwx");
            assert forall|i: int| 0 <= i < service@.len() implies service@[i] != '#' by {}
        }
        url_with_query(service, &query)
    }
}

} // verus!

use vstd::prelude::*;

verus! {

use crate::http::AuthenticatedHttpClient;
use vstd::string::StringExecFns;

/// Opaque identifier of a recorded activity on the remote platform.
#[derive(Debug)]
pub struct ActivityID(pub String);

/// One stream of the streams endpoint: a numeric `data` array.
#[derive(Debug)]
pub struct Samples {
    pub data: Vec<i16>,
}

/// The two streams the fetcher asks for, keyed by type.
#[derive(Debug)]
pub struct StravaData {
    pub heartrate: Samples,
    pub time: Samples,
}

/// Paired heart-rate and time streams of one activity.
#[derive(Debug)]
pub struct HeartRateSamples {
    pub rates: Vec<i16>,
    pub times: Vec<i16>,
}

#[derive(Clone, Copy, PartialEq, Eq, Structural, Debug)]
pub enum ErrorGettingHeartRateData {
    /// Transport failure, or a non-2xx answer (an auth failure among them).
    ConnectionError,
    /// A 2xx body that does not carry the two expected numeric arrays.
    MalformedResponse,
}

/// The pair of numeric arrays under `heartrate.data` and `time.data` of a
/// JSON object, if the text parses as JSON of that shape.  Only
/// `parse_stream_body` gives this name a meaning.
pub uninterp spec fn stream_arrays_of(body: Seq<char>) -> Option<(Seq<i16>, Seq<i16>)>;

/// Relies on serde_json 1 (`from_str::<Value>`, `Value::get`,
/// `from_value::<Vec<i16>>`): the extraction depends on the body text alone,
/// and yields the two arrays exactly when the body is a JSON object holding
/// numeric arrays under `heartrate.data` and `time.data`.
#[verifier::external_body]
fn parse_stream_body(body: &str) -> (r: Option<StravaData>)
    ensures
        match r {
            Some(sd) => stream_arrays_of(body@) == Some((sd.heartrate.data@, sd.time.data@)),
            None => stream_arrays_of(body@) is None,
        },
{
    let v: serde_json::Value = serde_json::from_str(body).ok()?;
    let rates: Vec<i16> = serde_json::from_value(v.get("heartrate")?.get("data")?.clone()).ok()?;
    let times: Vec<i16> = serde_json::from_value(v.get("time")?.get("data")?.clone()).ok()?;
    Some(StravaData { heartrate: Samples { data: rates }, time: Samples { data: times } })
}

/// Converts a successful streams-endpoint body into paired samples, without
/// re-sampling or gap-filling.
pub fn samples_from_body(body: &str) -> (r: Result<HeartRateSamples, ErrorGettingHeartRateData>)
    ensures
        match stream_arrays_of(body@) {
            Some(arrays) => r matches Ok(s) && s.rates@ == arrays.0 && s.times@ == arrays.1,
            None => r == Err::<HeartRateSamples, ErrorGettingHeartRateData>(
                ErrorGettingHeartRateData::MalformedResponse,
            ),
        },
{
    match parse_stream_body(body) {
        Some(sd) => Ok(HeartRateSamples { rates: sd.heartrate.data, times: sd.time.data }),
        None => Err(ErrorGettingHeartRateData::MalformedResponse),
    }
}

/// The streams URL of one activity, asking for the heart-rate and time
/// streams keyed by type.
pub open spec fn spec_activity_url(activity: Seq<char>) -> Seq<char> {
    "https://www.strava.com/api/v3/activities/"@ + activity
        + "/streams?keys=heartrate,time&key_by_type=true"@
}

pub fn construct_activity_url(activity: &ActivityID) -> (r: String)
    ensures
        r@ == spec_activity_url(activity.0@),
{
    let url: String = "https://www.strava.com/api/v3/activities/".to_owned();
    let url = url.concat(activity.0.as_str());
    url.concat("/streams?keys=heartrate,time&key_by_type=true")
}

/// Fetches the paired heart-rate/time streams of one activity through an
/// injected client.
pub struct Strava<C: AuthenticatedHttpClient> {
    pub client: C,
}

impl<C: AuthenticatedHttpClient> Strava<C> {
    /// Retrieves the two streams of `activity` with bearer `token`.  Fails
    /// with `ConnectionError` on transport failure or a non-2xx answer, and
    /// with `MalformedResponse` when a 2xx body lacks the two arrays.
    pub fn get_activity_heart_rate(&mut self, token: &str, activity: &ActivityID) -> (r: Result<
        HeartRateSamples,
        ErrorGettingHeartRateData,
    >)
        ensures
            match old(self).client.get_response(spec_activity_url(activity.0@), token@) {
                Err(_) => r == Err::<HeartRateSamples, ErrorGettingHeartRateData>(
                    ErrorGettingHeartRateData::ConnectionError,
                ),
                Ok(resp) => if resp.0 < 200 || resp.0 >= 300 {
                    r == Err::<HeartRateSamples, ErrorGettingHeartRateData>(
                        ErrorGettingHeartRateData::ConnectionError,
                    )
                } else {
                    match stream_arrays_of(resp.1) {
                        Some(arrays) => r matches Ok(s) && s.rates@ == arrays.0 && s.times@
                            == arrays.1,
                        None => r == Err::<HeartRateSamples, ErrorGettingHeartRateData>(
                            ErrorGettingHeartRateData::MalformedResponse,
                        ),
                    }
                },
            },
    {
        let url = construct_activity_url(activity);
        let resp = match self.client.get(url.as_str(), token) {
            Ok(resp) => resp,
            Err(_) => {
                return Err(ErrorGettingHeartRateData::ConnectionError);
            },
        };
        if resp.status < 200 || resp.status >= 300 {
            return Err(ErrorGettingHeartRateData::ConnectionError);
        }
        samples_from_body(resp.body.as_str())
    }
}

} // verus!

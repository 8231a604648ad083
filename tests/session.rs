use enphase::calendar::Date;
use enphase::cloud::authorization_code_request_url;
use enphase::cloud::basic_auth_header;
use enphase::cloud::classify_auth_failure;
use enphase::cloud::AuthFailure;
use enphase::cloud::bearer_header_for;
use enphase::cloud::AuthResponse;
use enphase::cloud::Address;
use enphase::cloud::Client;
use enphase::cloud::ConnectionType;
use enphase::cloud::Granularity;
use enphase::cloud::SystemRecord;

fn record(system_id: u32, name: &str) -> SystemRecord {
    SystemRecord {
        system_id,
        name: name.to_string(),
        public_name: "Residential System".to_string(),
        timezone: "US/Eastern".to_string(),
        address: Address {
            country: "US".to_string(),
            state: "NY".to_string(),
            postal_code: "12345".to_string(),
        },
        connection_type: ConnectionType::Ethernet,
        status: "normal".to_string(),
        last_report_at: 1670955839,
        last_energy_at: 1670955788,
        operational_at: 1571245440,
        attachment_type: None,
        interconnect_date: Date::new(2019, 10, 16),
        other_references: vec!["ref".to_string()],
        energy_lifetime: 57341389,
        energy_today: 1200,
        system_size: None,
    }
}

fn grant(access: &str, refresh: &str) -> Result<AuthResponse, String> {
    Ok(AuthResponse { access_token: access.to_string(), refresh_token: refresh.to_string() })
}

fn session() -> Client {
    Client::preauth("KEY", "client".to_string(), "s3cr3t".to_string(), "A".to_string(), "R".to_string())
}

#[test]
fn basic_header_is_base64_of_id_and_secret() {
    assert_eq!(basic_auth_header("id", "secret"), "Basic aWQ6c2VjcmV0");
    assert_eq!(session().token_auth_header(), "Basic Y2xpZW50OnMzY3IzdA==");
}

#[test]
fn bearer_header_of_a_token() {
    assert_eq!(bearer_header_for("abc"), "Bearer abc");
    assert_eq!(session().bearer_header(), "Bearer A");
}

#[test]
fn token_request_urls() {
    assert_eq!(
        authorization_code_request_url("C0DE"),
        "https://api.enphaseenergy.com/oauth/token?grant_type=authorization_code&redirect_uri=https://api.enphaseenergy.com/oauth/redirect_uri&code=C0DE"
    );
    assert_eq!(
        session().refresh_request_url(),
        "https://api.enphaseenergy.com/oauth/token?grant_type=refresh_token&refresh_token=R"
    );
    assert_eq!(session().list_systems_url(), "https://api.enphaseenergy.com/api/v4/systems?key=KEY");
}

#[test]
fn code_exchange_builds_a_session_or_passes_the_failure_on() {
    let client = Client::from_code_exchange("KEY", "client".to_string(), "s3cr3t".to_string(), grant("A1", "R1")).unwrap();
    let tokens = client.tokens();
    assert_eq!((tokens.access.as_str(), tokens.refresh.as_str()), ("A1", "R1"));
    assert_eq!(client.bearer_header(), "Bearer A1");
    let failed = Client::from_code_exchange("KEY", "client".to_string(), "s3cr3t".to_string(), Err::<AuthResponse, String>("401".to_string()));
    assert_eq!(failed.err().unwrap(), "401");
}

#[test]
fn refresh_rotates_tokens_and_header() {
    let mut client = session();
    let tokens = client.complete_refresh(grant("A2", "R2")).unwrap();
    assert_eq!(tokens.access, "A2");
    assert_eq!(tokens.refresh, "R2");
    assert_eq!(client.tokens().access, "A2");
    assert_eq!(client.bearer_header(), "Bearer A2");
    assert_eq!(
        client.refresh_request_url(),
        "https://api.enphaseenergy.com/oauth/token?grant_type=refresh_token&refresh_token=R2"
    );
    assert_eq!(client.token_auth_header(), "Basic Y2xpZW50OnMzY3IzdA==");
}

#[test]
fn failed_refresh_changes_nothing() {
    let mut client = session();
    let systems = client.systems_from(vec![record(7, "home")]);
    let e = client.complete_refresh(Err::<AuthResponse, String>("rejected".to_string())).unwrap_err();
    assert_eq!(e, "rejected");
    assert_eq!(client.tokens().access, "A");
    assert_eq!(client.tokens().refresh, "R");
    assert_eq!(client.bearer_header(), "Bearer A");
    assert_eq!(systems[0].bearer_header(), "Bearer A");
}

#[test]
fn handles_see_the_header_of_the_latest_refresh() {
    let mut client = session();
    let systems = client.systems_from(vec![record(1, "first"), record(2, "second")]);
    assert_eq!(systems.len(), 2);
    assert_eq!(systems[0].system_id, 1);
    assert_eq!(systems[1].name, "second");
    let before = systems[0].bearer_header();
    assert_eq!(before, "Bearer A");
    client.complete_refresh(grant("A2", "R2")).unwrap();
    let after = systems[1].bearer_header();
    assert_eq!(after, "Bearer A2");
    assert_eq!(systems[0].bearer_header(), "Bearer A2");
    let copy = systems[0].share();
    client.complete_refresh(grant("A3", "R3")).unwrap();
    assert_eq!(copy.bearer_header(), "Bearer A3");
    assert_eq!(before, "Bearer A");
}

#[test]
fn system_urls() {
    let client = session();
    let system = client.systems_from(vec![record(4242, "home")]).pop().unwrap();
    assert_eq!(
        system.summary_url(),
        "https://api.enphaseenergy.com/api/v4/systems/4242/summary?key=KEY&size=100"
    );
    assert_eq!(
        system.lifetime_production_url(None, None, false),
        "https://api.enphaseenergy.com/api/v4/systems/4242/energy_lifetime?key=KEY"
    );
    assert_eq!(
        system.lifetime_production_url(Date::new(2022, 1, 1), Date::new(2022, 12, 31), true),
        "https://api.enphaseenergy.com/api/v4/systems/4242/energy_lifetime?key=KEY&start_date=2022-01-01&end_date=2022-12-31&production=all"
    );
    assert_eq!(
        system.microinverter_production_url(Date::new(2022, 12, 23).unwrap(), None),
        "https://api.enphaseenergy.com/api/v4/systems/4242/telemetry/production_micro?key=KEY&start_date=2022-12-23"
    );
    assert_eq!(
        system.microinverter_production_url(Date::new(2021, 12, 25).unwrap(), Some(Granularity::FifteenMinutes)),
        "https://api.enphaseenergy.com/api/v4/systems/4242/telemetry/production_micro?key=KEY&start_date=2021-12-25&granularity=15mins"
    );
}

#[test]
fn token_failures_are_sorted_by_status() {
    assert_eq!(classify_auth_failure(Some(401)), AuthFailure::Rejected(401));
    assert_eq!(classify_auth_failure(Some(400)), AuthFailure::Rejected(400));
    assert_eq!(classify_auth_failure(Some(499)), AuthFailure::Rejected(499));
    assert_eq!(classify_auth_failure(Some(500)), AuthFailure::Transport);
    assert_eq!(classify_auth_failure(Some(302)), AuthFailure::Transport);
    assert_eq!(classify_auth_failure(None), AuthFailure::Transport);
}

#[test]
fn shared_handle_keeps_the_description() {
    let client = session();
    let system = client.systems_from(vec![record(9, "cabin")]).pop().unwrap();
    let copy = system.share();
    assert_eq!(copy.system_id, 9);
    assert_eq!(copy.name, "cabin");
    assert_eq!(copy.address.postal_code, "12345");
    assert_eq!(copy.other_references, vec!["ref".to_string()]);
    assert_eq!(copy.interconnect_date, Date::new(2019, 10, 16));
    assert_eq!(copy.summary_url(), system.summary_url());
}

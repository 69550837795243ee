use anyhow::Context;
use at_realtime::r9k_position::error::Error as PositionError;
use at_realtime::realtime::error::{Error as RealtimeError, HttpError};
use at_realtime::smartrak_gtfs::error::Error as GtfsError;

#[derive(Debug)]
struct Position(PositionError);

impl std::fmt::Display for Position {
    fn fmt(&self, f: &mut std::fmt::Formatter<'_>) -> std::fmt::Result {
        f.write_str(&self.0.to_string())
    }
}

impl std::error::Error for Position {}

#[derive(Debug)]
struct Realtime(RealtimeError);

impl std::fmt::Display for Realtime {
    fn fmt(&self, f: &mut std::fmt::Formatter<'_>) -> std::fmt::Result {
        f.write_str(&self.0.to_string())
    }
}

impl std::error::Error for Realtime {}

#[derive(Debug)]
struct Gtfs(GtfsError);

impl std::fmt::Display for Gtfs {
    fn fmt(&self, f: &mut std::fmt::Formatter<'_>) -> std::fmt::Result {
        f.write_str(&self.0.to_string())
    }
}

impl std::error::Error for Gtfs {}

fn chain_of(err: &anyhow::Error) -> Vec<String> {
    err.chain().map(|cause| cause.to_string()).collect()
}

fn position_of(err: anyhow::Error) -> PositionError {
    let inner = err.downcast_ref::<Position>().map(|p| p.0.clone());
    PositionError::from_chain(&chain_of(&err), inner)
}

fn realtime_of(err: anyhow::Error) -> RealtimeError {
    let inner = err.downcast_ref::<Realtime>().map(|p| p.0.clone());
    RealtimeError::from_chain(&chain_of(&err), inner)
}

fn gtfs_of(err: anyhow::Error) -> GtfsError {
    let inner = err.downcast_ref::<Gtfs>().map(|p| p.0.clone());
    GtfsError::from_chain(&chain_of(&err), inner)
}

#[test]
fn error_r9k_context() {
    let result = Err::<(), Position>(Position(PositionError::ServerError("server error".to_string())))
        .context("request context");
    let err = position_of(result.unwrap_err());
    assert_eq!(err.to_string(), "code: server_error, description: request context: server error");

    let result = Err::<(), Realtime>(Realtime(RealtimeError::ServerError("server error".to_string())))
        .context("request context");
    let err = realtime_of(result.unwrap_err());
    assert_eq!(err.to_string(), "code: 500, description: server_error request context: server error");

    let result =
        Err::<(), Gtfs>(Gtfs(GtfsError::ServerError("server error".to_string()))).context("request context");
    let err = gtfs_of(result.unwrap_err());
    assert_eq!(err.to_string(), "code: server_error, description: request context: server error");
}

#[test]
fn error_anyhow_context() {
    let result = Err::<(), anyhow::Error>(anyhow::Error::msg("one-off error")).context("error context");
    let err = position_of(result.unwrap_err());
    assert_eq!(err.to_string(), "code: server_error, description: error context -> one-off error");

    let result = Err::<(), anyhow::Error>(anyhow::Error::msg("one-off error")).context("error context");
    let err = realtime_of(result.unwrap_err());
    assert_eq!(err.to_string(), "code: 500, description: error context -> one-off error");

    let result = Err::<(), anyhow::Error>(anyhow::Error::msg("one-off error")).context("error context");
    let err = gtfs_of(result.unwrap_err());
    assert_eq!(err.to_string(), "code: server_error, description: error context -> one-off error");
}

#[test]
fn error_serde_context() {
    let parsed: Result<serde_json::Value, serde_json::Error> = serde_json::from_str(r#"{"foo": "bar""#);
    let result: anyhow::Result<serde_json::Value> = parsed.context("error context");
    let err = position_of(result.unwrap_err());
    assert_eq!(
        err.to_string(),
        "code: server_error, description: error context -> EOF while parsing an object at line 1 column 13"
    );

    let parsed: Result<serde_json::Value, serde_json::Error> = serde_json::from_str(r#"{"foo": "bar""#);
    let result: anyhow::Result<serde_json::Value> = parsed.context("error context");
    let err = realtime_of(result.unwrap_err());
    assert_eq!(
        err.to_string(),
        "code: 500, description: error context -> EOF while parsing an object at line 1 column 13"
    );

    let parsed: Result<serde_json::Value, serde_json::Error> = serde_json::from_str(r#"{"foo": "bar""#);
    let result: anyhow::Result<serde_json::Value> = parsed.context("error context");
    let err = gtfs_of(result.unwrap_err());
    assert_eq!(
        err.to_string(),
        "code: server_error, description: error context -> EOF while parsing an object at line 1 column 13"
    );
}

#[test]
fn error_display() {
    let err = RealtimeError::BadRequest("invalid input".to_string());
    assert_eq!(err.to_string(), "code: 400, description: invalid input");
}

#[test]
fn with_context() {
    let result = Err::<(), Realtime>(Realtime(RealtimeError::BadRequest("invalid input".to_string())))
        .context("doing something")
        .context("more context");
    let err = realtime_of(result.unwrap_err());
    assert_eq!(
        err,
        RealtimeError::BadRequest("more context -> doing something -> code: 400, description: invalid input".to_string())
    );
}

#[test]
fn error_codes_and_statuses() {
    assert_eq!(PositionError::Outdated("x".to_string()).code(), "outdated");
    assert_eq!(PositionError::NoUpdate.to_string(), "code: no_update");
    assert_eq!(RealtimeError::NotFound("gone".to_string()).code(), 404);
    assert_eq!(RealtimeError::BadGateway("up".to_string()).code(), 502);
    assert_eq!(RealtimeError::WrongTime("late".to_string()).code(), 500);
    assert_eq!(RealtimeError::NoActualUpdate.to_string(), "code: 500, description: no_actual_update");
}

#[test]
fn detailed_variant_keeps_variant_under_context() {
    let result = Err::<(), Realtime>(Realtime(RealtimeError::Outdated("too old".to_string())))
        .context("checking message");
    let err = realtime_of(result.unwrap_err());
    assert_eq!(err, RealtimeError::Outdated("checking message: too old".to_string()));

    let result = Err::<(), Position>(Position(PositionError::NoActualUpdate)).context("checking");
    let err = position_of(result.unwrap_err());
    assert_eq!(err, PositionError::NoActualUpdate);
}

#[test]
fn http_error_reply() {
    let result = Err::<(), Realtime>(Realtime(RealtimeError::NotFound("no stop".to_string())))
        .context("looking up stop");
    let err = result.unwrap_err();
    let inner = err.downcast_ref::<Realtime>().map(|r| r.0.clone());
    let reply = HttpError::from_chain(&chain_of(&err), inner);
    assert_eq!(reply.status, 404);
    assert_eq!(reply.error, "looking up stop, caused by: code: 404, description: no stop");

    let reply = HttpError::from_chain(&vec!["plain".to_string()], None);
    assert_eq!(reply.status, 500);
    assert_eq!(reply.error, "plain, caused by: plain");
}

#[test]
fn display_begins_with_code() {
    let position = [
        PositionError::InvalidFormat("bad".to_string()),
        PositionError::Outdated("late".to_string()),
        PositionError::WrongTime("early".to_string()),
        PositionError::ServerError("down".to_string()),
        PositionError::NoUpdate,
        PositionError::NoActualUpdate,
    ];
    for e in &position {
        assert!(e.to_string().starts_with(&format!("code: {}", e.code())));
        assert_eq!(e.description(), e.to_string());
    }
    assert_eq!(PositionError::ServerError("a".to_string()).code(), PositionError::ServerError("b".to_string()).code());
    assert_eq!(PositionError::ServerError("a".to_string()).code(), "server_error");

    let gtfs = [
        GtfsError::ProcessingError("p".to_string()),
        GtfsError::MissingField("field".to_string()),
        GtfsError::CachingError("c".to_string()),
        GtfsError::NoUpdate,
        GtfsError::NoActualUpdate,
    ];
    for e in &gtfs {
        assert!(e.to_string().starts_with(&format!("code: {}", e.code())));
        assert_eq!(e.description(), e.to_string());
    }
    assert_eq!(GtfsError::MissingField("x".to_string()).to_string(), "code: missing_field, description: missing x");
    assert_eq!(GtfsError::NoUpdate.code(), "no_update");
    assert_eq!(GtfsError::NoActualUpdate.code(), "no_actual_update");
}

use yggdrasil_scheduler::config::{default_log_level, Args, LogLevel, SchedulerConfig};
use yggdrasil_scheduler::dispatch::{DispatchState, Dispatcher, FaultFlag, TickAction};
use yggdrasil_scheduler::handlers::{
    AddReply, AddScheduleHandler, DecodeError, DeleteScheduleHandler, HandlerState,
};
use yggdrasil_scheduler::store::{EventTable, Model, StoreError};
use yggdrasil_scheduler::time::Timestamp;
use yggdrasil_scheduler::{AddScheduleRequest, AddScheduleResponse, DeleteScheduleRequest};

fn request() -> AddScheduleRequest {
    AddScheduleRequest {
        time: Timestamp::new(3, 0),
        future_subject: "S".to_string(),
        future_message: serde_json::Value::Null,
    }
}

#[test]
fn default_log_level_is_warn() {
    assert_eq!(default_log_level(), LogLevel::Warn);
    let config = SchedulerConfig::with_default_log_level(500, "nats://bus".to_string(), "postgres://db".to_string());
    assert_eq!(config.log_level, LogLevel::Warn);
    assert_eq!(config.ms, 500);
    assert_eq!(config.nats, "nats://bus");
    assert_eq!(config.postgres, "postgres://db");
}

#[test]
fn args_default_config_file() {
    assert_eq!(Args::without_flags().config_file, "config.toml");
}

#[test]
fn subjects() {
    assert_eq!(AddScheduleRequest::subject(), "yggdrasil-scheduler.add");
    assert_eq!(AddScheduleResponse::subject(), "yggdrasil-scheduler.add");
    assert_eq!(DeleteScheduleRequest::subject(), "yggdrasil-scheduler.delete");
}

#[test]
fn timestamp_order() {
    assert!(Timestamp::new(1, 5).le(&Timestamp::new(1, 5)));
    assert!(Timestamp::new(1, 5).le(&Timestamp::new(2, 0)));
    assert!(!Timestamp::new(2, 0).le(&Timestamp::new(1, 999_999_999)));
    assert!(Timestamp::new(-1, 0).le(&Timestamp::new(0, 0)));
    assert!(Timestamp::new(59, 999_999_999).le(&Timestamp::new(59, 1_000_000_000)));
}

#[test]
fn now_reads_the_clock() {
    let t = Timestamp::now().unwrap();
    assert!(t.nanos < 1_000_000_000);
    assert!(t.secs > 1_500_000_000);
}

#[test]
fn fault_flag_raises_once_and_stays() {
    let mut flag = FaultFlag::new();
    assert!(!flag.is_raised());
    flag.raise();
    assert!(flag.is_raised());
    flag.raise();
    assert!(flag.is_raised());
}

#[test]
fn dispatcher_runs_until_flag_then_halts_for_good() {
    let mut flag = FaultFlag::new();
    let mut d = Dispatcher::new();
    assert_eq!(d.on_tick(&flag), TickAction::Dispatch);
    assert_eq!(d.on_tick(&flag), TickAction::Dispatch);
    flag.raise();
    assert_eq!(d.on_tick(&flag), TickAction::Halt);
    assert_eq!(d.state, DispatchState::Halted);
    let lowered = FaultFlag::new();
    assert_eq!(d.on_tick(&lowered), TickAction::Halt);
}

#[test]
fn add_handler_replies_only_with_address() {
    let mut flag = FaultFlag::new();
    let mut h = AddScheduleHandler::new();
    let req = h.on_request(Ok(request()), &mut flag).unwrap();
    assert_eq!(req.future_subject, "S");
    match h.on_inserted(Ok(AddScheduleResponse { id: 7 }), Some("_INBOX.1".to_string()), &mut flag) {
        AddReply::Send { to, response } => {
            assert_eq!(to, "_INBOX.1");
            assert_eq!(response.id, 7);
        }
        _ => panic!("expected a reply"),
    }
    assert!(matches!(h.on_inserted(Ok(AddScheduleResponse { id: 8 }), None, &mut flag), AddReply::Skip));
    assert_eq!(h.state, HandlerState::Serving);
    assert!(!flag.is_raised());
}

#[test]
fn add_handler_store_error_stops_it() {
    let mut flag = FaultFlag::new();
    let mut h = AddScheduleHandler::new();
    assert!(matches!(
        h.on_inserted(Err(StoreError::Unavailable), Some("r".to_string()), &mut flag),
        AddReply::Stop
    ));
    assert_eq!(h.state, HandlerState::Stopped);
    assert!(flag.is_raised());
    assert!(h.on_request(Ok(request()), &mut flag).is_none());
}

#[test]
fn handlers_stop_when_subscription_closes() {
    let mut flag = FaultFlag::new();
    let mut d = DeleteScheduleHandler::new();
    d.on_closed(&mut flag);
    assert_eq!(d.state, HandlerState::Stopped);
    assert!(flag.is_raised());
    let mut flag2 = FaultFlag::new();
    let mut a = AddScheduleHandler::new();
    a.on_closed(&mut flag2);
    assert_eq!(a.state, HandlerState::Stopped);
    assert!(flag2.is_raised());
}

#[test]
fn delete_handler_store_error_stops_it() {
    let mut flag = FaultFlag::new();
    let mut h = DeleteScheduleHandler::new();
    assert_eq!(h.on_request(Ok(DeleteScheduleRequest { id: 4 }), &mut flag), Some(4));
    assert!(h.on_deleted(Ok(()), &mut flag));
    assert!(!flag.is_raised());
    assert!(!h.on_deleted(Err(StoreError::Unavailable), &mut flag));
    assert!(flag.is_raised());
    assert_eq!(h.on_request(Ok(DeleteScheduleRequest { id: 5 }), &mut flag), None);
}

#[test]
fn scenario_malformed_add_request() {
    let mut flag = FaultFlag::new();
    let mut store = EventTable::new();
    let mut add = AddScheduleHandler::new();
    let mut del = DeleteScheduleHandler::new();
    let mut dispatcher = Dispatcher::new();

    let first = add.on_request(Ok(request()), &mut flag).unwrap();
    let kept = Model::add_event(&mut store, &first, "c".to_string()).unwrap().id;
    let doomed = Model::add_event(&mut store, &request(), "d".to_string()).unwrap().id;

    assert!(add.on_request(Err(DecodeError::Malformed), &mut flag).is_none());
    assert_eq!(add.state, HandlerState::Stopped);
    assert!(add.on_request(Ok(request()), &mut flag).is_none());

    let id = del.on_request(Ok(DeleteScheduleRequest { id: doomed }), &mut flag).unwrap();
    Model::delete_event(&mut store, &DeleteScheduleRequest { id });
    assert!(del.on_deleted(Ok(()), &mut flag));
    assert_eq!(del.state, HandlerState::Serving);
    assert!(store.find(doomed).is_none());
    assert!(store.find(kept).is_some());

    assert_eq!(dispatcher.on_tick(&flag), TickAction::Halt);
    assert_eq!(dispatcher.on_tick(&flag), TickAction::Halt);
    assert_eq!(dispatcher.state, DispatchState::Halted);

    assert_eq!(del.on_request(Ok(DeleteScheduleRequest { id: kept }), &mut flag), Some(kept));
}

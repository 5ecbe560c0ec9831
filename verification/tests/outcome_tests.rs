use rhei_tokio_rusqlite::outcome::{call_result, close_result, open_result, Reply};
use rhei_tokio_rusqlite::Error;

#[test]
fn answered_call_returns_closure_result() {
    assert_eq!(call_result::<i64>(Reply::Answered(Ok(60))).unwrap(), 60);
    let r = call_result::<i64>(Reply::Answered(Err(Error::Other("no".to_string()))));
    assert!(matches!(r, Err(Error::Other(m)) if m == "no"));
}

#[test]
fn refused_or_lost_call_is_connection_closed() {
    assert!(matches!(call_result::<()>(Reply::Refused), Err(Error::ConnectionClosed)));
    assert!(matches!(call_result::<()>(Reply::Lost), Err(Error::ConnectionClosed)));
}

#[test]
fn close_outcomes() {
    assert!(close_result(Reply::Answered(Ok(()))).is_ok());
    assert!(matches!(
        close_result(Reply::Answered(Err(rusqlite::Error::InvalidQuery))),
        Err(Error::Close(rusqlite::Error::InvalidQuery))
    ));
    assert!(matches!(close_result(Reply::Refused), Err(Error::ConnectionClosed)));
    assert!(matches!(close_result(Reply::Lost), Err(Error::ConnectionClosed)));
}

#[test]
fn open_outcomes() {
    assert!(open_result(Some(Ok(()))).is_ok());
    assert!(matches!(
        open_result(Some(Err(rusqlite::Error::InvalidQuery))),
        Err(Error::Rusqlite(rusqlite::Error::InvalidQuery))
    ));
    assert!(matches!(open_result(None), Err(Error::ConnectionClosed)));
}

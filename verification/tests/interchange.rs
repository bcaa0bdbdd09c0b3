use interchange::Interchange;
use interchange::Requester;
use interchange::Responder;
use interchange::State;

#[derive(Clone, Debug, PartialEq)]
pub enum Request {
    This(u8, u32),
}

#[derive(Clone, Debug, PartialEq)]
pub enum Response {
    Here(u8, u8, u8),
    There(i16),
}

impl Default for Response {
    fn default() -> Self {
        Response::There(1)
    }
}

impl Default for Request {
    fn default() -> Self {
        Request::This(0, 0)
    }
}

#[test]
fn interchange() {
    let mut pool: Interchange<Request, Response> = Interchange::new(1);
    let (i, mut rq, mut rp) = pool.claim().unwrap();
    assert_eq!(rq.state(pool.channel(i)), State::Idle);
    // happy path: no cancelation
    let request = Request::This(1, 2);
    assert!(rq.request(pool.channel_mut(i), request).is_ok());
    let request = rp.take_request(pool.channel_mut(i)).unwrap();
    println!("rp got request: {request:?}");
    let response = Response::There(-1);
    assert!(!rp.is_canceled(pool.channel(i)));
    assert!(rp.respond(pool.channel_mut(i), response).is_ok());
    let response = rq.take_response(pool.channel_mut(i)).unwrap();
    println!("rq got response: {response:?}");
    // early cancelation path
    assert!(rq.request(pool.channel_mut(i), request).is_ok());
    let request = rq.cancel(pool.channel_mut(i)).unwrap().unwrap();
    println!("responder could cancel: {request:?}");
    assert!(rp.take_request(pool.channel_mut(i)).is_none());
    assert_eq!(State::Idle, rq.state(pool.channel(i)));
    // late cancelation
    assert!(rq.request(pool.channel_mut(i), request).is_ok());
    let request = rp.take_request(pool.channel_mut(i)).unwrap();
    println!(
        "responder could cancel: {:?}",
        &rq.cancel(pool.channel_mut(i)).unwrap().is_none()
    );
    assert_eq!(request, Request::This(1, 2));
    assert!(rp.is_canceled(pool.channel(i)));
    assert!(rp.respond(pool.channel_mut(i), response).is_err());
    assert!(rp.acknowledge_cancel(pool.channel_mut(i)).is_ok());
    assert_eq!(State::Idle, rq.state(pool.channel(i)));
    // building into request buffer
    rq.with_request_mut(pool.channel_mut(i), |_r| Request::This(1, 2))
        .unwrap();
    assert!(rq.send_request(pool.channel_mut(i)).is_ok());
    let request = rp.take_request(pool.channel_mut(i)).unwrap();
    assert_eq!(request, Request::This(1, 2));
    println!("rp got request: {request:?}");
    // building into response buffer
    rp.with_response_mut(pool.channel_mut(i), |_r| Response::Here(3, 2, 1))
        .unwrap();
    assert!(rp.send_response(pool.channel_mut(i)).is_ok());
    let response = rq.take_response(pool.channel_mut(i)).unwrap();
    assert_eq!(response, Response::Here(3, 2, 1));
}

fn release_all(
    pool: &mut Interchange<u64, u32>,
    holder: &mut Vec<(usize, Requester, Responder)>,
) {
    while let Some((i, rq, rp)) = holder.pop() {
        rq.release(pool.channel_mut(i));
        rp.release(pool.channel_mut(i));
    }
}

#[test]
fn tests() {
    let mut pool: Interchange<u64, u32> = Interchange::new(10);
    let mut holder = Vec::new();
    for _ in 0..10 {
        holder.push(pool.claim().unwrap());
    }

    assert!(pool.claim().is_none());
    release_all(&mut pool, &mut holder);
    for _ in 0..10 {
        holder.push(pool.claim().unwrap());
    }
    assert!(pool.claim().is_none());

    release_all(&mut pool, &mut holder);
    for _ in 0..5 {
        holder.push(pool.claim().unwrap());
    }
    release_all(&mut pool, &mut holder);
    for _ in 0..10 {
        holder.push(pool.claim().unwrap());
    }
    assert!(pool.claim().is_none());
}

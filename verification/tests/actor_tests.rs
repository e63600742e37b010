use coerce_rt::actor::context::{ActorContext, ActorHandlerContext, ActorStatus};
use coerce_rt::actor::message::{
    ActorMessage, ActorMessageHandler, Handler, Mailbox, Message, ResponseSender,
};
use coerce_rt::actor::{Actor, ActorRefError};

const TEST_ACTOR_KEY: u64 = 7;

#[derive(Clone, Copy, Debug, PartialEq, Eq)]
pub enum TestActorStatus {
    Active,
    Inactive,
}

pub struct TestActor {
    pub status: Option<TestActorStatus>,
}

impl TestActor {
    pub fn new() -> TestActor {
        TestActor { status: None }
    }
}

impl Actor for TestActor {}

pub struct GetStatusRequest {}

#[derive(Debug, PartialEq)]
pub enum GetStatusResponse {
    Current(TestActorStatus),
    Empty,
}

impl Message for GetStatusRequest {
    type Result = GetStatusResponse;
}

pub struct SetStatusRequest(pub TestActorStatus);

#[derive(Debug, PartialEq)]
pub enum SetStatusResponse {
    Accepted,
}

impl Message for SetStatusRequest {
    type Result = SetStatusResponse;
}

impl Handler<GetStatusRequest> for TestActor {
    fn handle(
        &mut self,
        _message: GetStatusRequest,
        _ctx: &mut ActorHandlerContext,
    ) -> GetStatusResponse {
        match self.status {
            Some(TestActorStatus::Active) => GetStatusResponse::Current(TestActorStatus::Active),
            Some(TestActorStatus::Inactive) => GetStatusResponse::Current(TestActorStatus::Inactive),
            _ => GetStatusResponse::Empty,
        }
    }
}

impl Handler<SetStatusRequest> for TestActor {
    fn handle(
        &mut self,
        message: SetStatusRequest,
        _ctx: &mut ActorHandlerContext,
    ) -> SetStatusResponse {
        self.status = Some(message.0);
        SetStatusResponse::Accepted
    }
}

/// One request/response round trip against an actor the caller drives:
/// wrap the message with a fresh response channel, dispatch, read back.
fn send<A, M>(actor: &mut A, ctx: &mut ActorHandlerContext, msg: M) -> Option<M::Result>
where
    A: Handler<M>,
    M: Message,
{
    let mut envelope: ActorMessage<A, M> = ActorMessage::new(msg, ResponseSender::new());
    envelope.handle_msg(actor, ctx);
    envelope.into_response()
}

fn handler_context_for(ctx: &mut ActorContext, type_key: u64) -> ActorHandlerContext {
    let actor_ref = ctx.new_actor(type_key).unwrap();
    ActorHandlerContext::new(actor_ref.id, ActorContext::new(), ActorStatus::Started)
}

#[test]
fn test_actor_req_res() {
    let mut ctx = ActorContext::new();
    let mut hctx = handler_context_for(&mut ctx, TEST_ACTOR_KEY);
    let mut actor = TestActor::new();

    let response = send(&mut actor, &mut hctx, GetStatusRequest {});

    assert_eq!(response, Some(GetStatusResponse::Empty));
}

#[test]
fn test_actor_req_res_mutation() {
    let mut ctx = ActorContext::new();
    let mut hctx = handler_context_for(&mut ctx, TEST_ACTOR_KEY);
    let mut actor = TestActor::new();

    let initial_status = send(&mut actor, &mut hctx, GetStatusRequest {});
    let _ = send(&mut actor, &mut hctx, SetStatusRequest(TestActorStatus::Active));
    let current_status = send(&mut actor, &mut hctx, GetStatusRequest {});

    assert_eq!(initial_status, Some(GetStatusResponse::Empty));
    assert_eq!(
        current_status,
        Some(GetStatusResponse::Current(TestActorStatus::Active))
    );
}

#[test]
fn test_spawn_remove_round_trip() {
    let mut ctx = ActorContext::new();
    let spawned = ctx.new_actor(TEST_ACTOR_KEY).unwrap();

    let removed = ctx.remove_actor(spawned.id);
    assert_eq!(removed, Some(spawned));

    assert_eq!(ctx.get_actor(spawned.id, TEST_ACTOR_KEY), None);
}

#[test]
fn test_remove_twice_returns_nothing() {
    let mut ctx = ActorContext::new();
    let spawned = ctx.new_actor(TEST_ACTOR_KEY).unwrap();

    assert_eq!(ctx.remove_actor(spawned.id), Some(spawned));
    assert_eq!(ctx.remove_actor(spawned.id), None);
}

#[test]
fn test_get_unknown_id_returns_nothing() {
    let mut ctx = ActorContext::new();
    assert_eq!(ctx.get_actor(123, TEST_ACTOR_KEY), None);

    let spawned = ctx.new_actor(TEST_ACTOR_KEY).unwrap();
    assert_eq!(ctx.get_actor(spawned.id + 1, TEST_ACTOR_KEY), None);
}

#[test]
fn test_get_actor_checks_type_key() {
    let mut ctx = ActorContext::new();
    let spawned = ctx.new_actor(TEST_ACTOR_KEY).unwrap();

    assert_eq!(ctx.get_actor(spawned.id, TEST_ACTOR_KEY), Some(spawned));
    assert_eq!(ctx.get_actor(spawned.id, TEST_ACTOR_KEY + 1), None);
}

#[test]
fn test_ids_are_not_reused() {
    let mut ctx = ActorContext::new();
    let first = ctx.new_actor(TEST_ACTOR_KEY).unwrap();
    assert_eq!(ctx.remove_actor(first.id), Some(first));

    let second = ctx.new_actor(TEST_ACTOR_KEY).unwrap();
    assert_ne!(first.id, second.id);
}

#[test]
fn test_mailbox_fifo_order() {
    let mut mailbox: Mailbox<u32> = Mailbox::new();
    mailbox.enqueue(1).unwrap();
    mailbox.enqueue(2).unwrap();
    mailbox.enqueue(3).unwrap();

    assert_eq!(mailbox.len(), 3);
    assert_eq!(mailbox.dequeue(), Some(1));
    assert_eq!(mailbox.dequeue(), Some(2));
    assert_eq!(mailbox.dequeue(), Some(3));
    assert_eq!(mailbox.dequeue(), None);
}

#[test]
fn test_fifo_dispatch_through_boxed_envelopes() {
    let mut mailbox: Mailbox<Box<dyn ActorMessageHandler<TestActor>>> = Mailbox::new();

    let first: ActorMessage<TestActor, SetStatusRequest> =
        ActorMessage::new(SetStatusRequest(TestActorStatus::Active), ResponseSender::new());
    let second: ActorMessage<TestActor, SetStatusRequest> =
        ActorMessage::new(SetStatusRequest(TestActorStatus::Inactive), ResponseSender::new());
    assert!(mailbox.enqueue(Box::new(first)).is_ok());
    assert!(mailbox.enqueue(Box::new(second)).is_ok());

    let mut ctx = ActorContext::new();
    let mut hctx = handler_context_for(&mut ctx, TEST_ACTOR_KEY);
    let mut actor = TestActor::new();
    for mut envelope in mailbox.drain() {
        envelope.handle(&mut actor, &mut hctx);
    }

    // Handled in send order: the later message decides the final state.
    assert_eq!(actor.status, Some(TestActorStatus::Inactive));
}

#[test]
fn test_closed_mailbox_rejects_sends() {
    let mut mailbox: Mailbox<u32> = Mailbox::new();
    mailbox.enqueue(1).unwrap();
    mailbox.close();

    assert_eq!(mailbox.enqueue(2), Err(ActorRefError::ActorUnavailable));
    // Pending envelopes are still drained after the close.
    assert_eq!(mailbox.dequeue(), Some(1));
    assert_eq!(mailbox.dequeue(), None);
}

#[test]
fn test_abandoned_response_is_silent() {
    let mut ctx = ActorContext::new();
    let mut hctx = handler_context_for(&mut ctx, TEST_ACTOR_KEY);
    let mut actor = TestActor::new();

    let mut envelope: ActorMessage<TestActor, SetStatusRequest> = ActorMessage::new(
        SetStatusRequest(TestActorStatus::Active),
        ResponseSender::abandoned(),
    );
    envelope.handle_msg(&mut actor, &mut hctx);

    // The handler still ran to completion; the reply was discarded.
    assert_eq!(actor.status, Some(TestActorStatus::Active));
    assert_eq!(envelope.into_response(), None);
}

#[test]
fn test_response_channel_delivers_once() {
    let mut sender: ResponseSender<u32> = ResponseSender::new();
    sender.send(5);
    sender.send(6);
    assert_eq!(sender.into_response(), Some(5));

    let mut closed: ResponseSender<u32> = ResponseSender::abandoned();
    closed.send(5);
    assert_eq!(closed.into_response(), None);
}

#[test]
fn test_handler_context_accessors() {
    let context = ActorContext::new();
    let mut hctx = ActorHandlerContext::new(42, context, ActorStatus::Starting);

    assert_eq!(*hctx.actor_id(), 42);
    assert_eq!(*hctx.get_status(), ActorStatus::Starting);

    hctx.set_status(ActorStatus::Started);
    assert_eq!(*hctx.get_status(), ActorStatus::Started);
    hctx.set_status(ActorStatus::Stopping);
    hctx.set_status(ActorStatus::Stopped);
    assert_eq!(*hctx.get_status(), ActorStatus::Stopped);
}

#[test]
fn test_nested_spawn_through_handler_context() {
    let context = ActorContext::new();
    let mut hctx = ActorHandlerContext::new(0, context, ActorStatus::Started);

    let nested = hctx.actor_context_mut();
    let spawned = nested.new_actor(TEST_ACTOR_KEY).unwrap();
    assert_eq!(nested.get_actor(spawned.id, TEST_ACTOR_KEY), Some(spawned));
}

#[test]
fn test_current_context_starts_empty() {
    let mut ctx = ActorContext::current_context();
    assert_eq!(ctx.get_actor(0, TEST_ACTOR_KEY), None);

    let spawned = ctx.new_actor(TEST_ACTOR_KEY).unwrap();
    assert_eq!(spawned.id, 0);
}

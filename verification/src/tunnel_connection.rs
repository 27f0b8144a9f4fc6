//! One tunnelling channel to a gateway, as a state machine without I/O.
//!
//! The host owns the socket and the clock. It hands every datagram it receives
//! to [`TunnelConnection::handle_inbound_message`], sends what
//! [`TunnelConnection::get_outbound_data`] returns until that returns nothing,
//! and calls [`TunnelConnection::handle_time_events`] no later than
//! [`TunnelConnection::get_next_time_event`]. Every call that arms a deadline
//! takes the current time in milliseconds of a monotonic clock; deadlines
//! saturate at `u64::MAX`.
//!
//! The contracts speak of [`Tunnel`], the view of a connection, and of its
//! transition functions `polled`, `ticked`, `received` and `sent`.

use crate::cemi::apdu::Apdu;
use crate::cemi::l_data::LData;
use crate::cemi::{Message, MessageView};
use crate::dpt::DPT;
use crate::group_event::{GroupEvent, GroupEventType};
use crate::knxnet::connect::{ConnectRequest, ConnectResponse};
use crate::knxnet::connectionstate::ConnectionstateRequest;
use crate::knxnet::cri::{ConnectionReqType, TunnelingLayer};
use crate::knxnet::disconnect::{DisconnectRequest, DisconnectResponse};
use crate::knxnet::hpai::{Protocol, HPAI};
use crate::knxnet::status::StatusCode;
use crate::knxnet::tunnel::{TunnelAck, TunnelRequest, TunnelRequestView};
use crate::knxnet::{KnxNetIpError, Service, ServiceView};
use std::collections::VecDeque;
use vstd::prelude::*;

verus! {

/// The intervals of a connection, in milliseconds.
#[derive(Debug, Copy, Clone, PartialEq, Eq, Structural)]
pub struct TunnelConnectionConfig {
    /// The time between two transmissions of the request in flight.
    pub resent_interval: u64,
    /// The time after which the request in flight is given up.
    pub response_timeout: u64,
    /// Kept for hosts that watch the answer to a probe on their own; the
    /// connection does not read it.
    pub heartbeat_response_timeout: u64,
    /// The time between two probes of the connection state.
    pub heartbeat_interval: u64,
}

impl Default for TunnelConnectionConfig {
    fn default() -> (c: TunnelConnectionConfig)
        ensures
            c == (TunnelConnectionConfig {
                resent_interval: 1000,
                response_timeout: 1500,
                heartbeat_response_timeout: 10_000,
                heartbeat_interval: 60_000,
            }),
    {
        TunnelConnectionConfig {
            resent_interval: 1000,
            heartbeat_interval: 60_000,
            response_timeout: 1500,
            heartbeat_response_timeout: 10_000,
        }
    }
}

/// Where a connection stands.
#[derive(Debug, Copy, Clone, PartialEq, Eq, Structural)]
pub enum TunnelConnectionState {
    Disconnected,
    Connecting,
    Connected,
    Disconnecting,
}

/// Why a session cannot go on.
#[derive(Debug, Copy, Clone, PartialEq, Eq, Structural)]
pub enum TunnelError {
    /// The gateway did not answer the connect request within the response
    /// timeout.
    ConnectTimeout,
}

/// A frame that waits to be sent.
#[derive(Debug, Clone, PartialEq)]
struct OutMessage {
    data: Vec<u8>,
    need_ack: bool,
    retried: u8,
}

/// A request that waits for its answer: its frame, and how often it was
/// handed out.
pub struct Request {
    pub bytes: Seq<u8>,
    pub attempts: u8,
}

/// What a [`TunnelConnection`] is to the contracts.
pub struct Tunnel {
    pub state: TunnelConnectionState,
    pub awaiting_heartbeat_response: bool,
    pub channel: u8,
    pub host_info: HPAI,
    pub outbound_seq: u8,
    pub inbound_seq: u8,
    /// The requests that wait for an answer; the first is the one in flight.
    pub out_queue: Seq<Request>,
    /// The frames that are sent once and not answered.
    pub ack_queue: Seq<Seq<u8>>,
    /// Whether the request in flight is due to be handed out.
    pub message_pending: bool,
    pub next_resent: u64,
    pub next_timeout: u64,
    pub next_heartbeat: u64,
    pub config: TunnelConnectionConfig,
}

/// The frame of a connect request for a link layer tunnel, with `host` as
/// control and as data endpoint.
pub open spec fn connect_request_frame(host: HPAI) -> Seq<u8> {
    Service::<()>::bytes(
        ServiceView::ConnectRequest(
            ConnectRequest {
                data: host,
                control: host,
                connection_type: ConnectionReqType::TunnelConnection {
                    layer: TunnelingLayer::TunnelLinkLayer,
                },
            },
        ),
    )
}

/// The frame of a connection state request.
pub open spec fn connection_state_request_frame(channel: u8, host: HPAI) -> Seq<u8> {
    Service::<()>::bytes(
        ServiceView::ConnectionstateRequest(ConnectionstateRequest { channel, control: host }),
    )
}

/// The frame of a disconnect request.
pub open spec fn disconnect_request_frame(channel: u8, host: HPAI) -> Seq<u8> {
    Service::<()>::bytes(
        ServiceView::DisconnectRequest(DisconnectRequest { channel, control: host }),
    )
}

/// The frame of a disconnect response without error.
pub open spec fn disconnect_response_frame(channel: u8) -> Seq<u8> {
    Service::<()>::bytes(
        ServiceView::DisconnectResponse(
            DisconnectResponse { channel, status: StatusCode::NoError },
        ),
    )
}

/// The frame of a tunnel acknowledgement without error.
pub open spec fn tunnel_ack_frame(channel: u8, seq: u8) -> Seq<u8> {
    Service::<()>::bytes(
        ServiceView::TunnelAck(TunnelAck { channel, seq, status: StatusCode::NoError }),
    )
}

/// The application layer that stands for a group event.
pub open spec fn event_apdu<P>(ev: GroupEvent<P>) -> Apdu<P> {
    match ev.event_type {
        GroupEventType::GroupValueRead => Apdu::GroupValueRead,
        GroupEventType::GroupValueWrite => Apdu::GroupValueWrite(ev.data),
        GroupEventType::GroupValueResponse => Apdu::GroupValueResponse(ev.data),
    }
}

/// The tunnel request that carries a group event to the bus: an L_Data
/// request with the default fields, the event's address as destination and
/// the event's application layer.
pub open spec fn group_request<P>(channel: u8, seq: u8, ev: GroupEvent<P>) -> ServiceView<P> {
    ServiceView::TunnelRequest(
        TunnelRequestView {
            channel,
            seq,
            data: MessageView::LDataReq(
                Seq::empty(),
                LData { destination: ev.address, data: event_apdu(ev), ..LData::<P>::initial() },
            ),
        },
    )
}

/// Whether an event can be sent: a read, or a value whose frame fits the
/// length byte of a cEMI message.
pub open spec fn sendable<T: DPT + Default>(ev: GroupEvent<T::V>) -> bool {
    Service::<T>::encodable(group_request(0, 0, ev))
}

/// What `send` queues for an event with opaque bytes is a frame that is read
/// back as the tunnel request of the event, wherever a write or response has
/// at least one byte.
pub proof fn lemma_group_request_reads_back(channel: u8, seq: u8, ev: GroupEvent<Seq<u8>>)
    requires
        sendable::<Vec<u8>>(ev),
        ev.event_type != GroupEventType::GroupValueRead ==> ev.data.len() >= 1,
    ensures
        Service::<Vec<u8>>::parse(Service::<Vec<u8>>::bytes(group_request(channel, seq, ev)))
            == Ok::<ServiceView<Seq<u8>>, KnxNetIpError>(group_request(channel, seq, ev)),
{
    Apdu::<Vec<u8>>::lemma_opaque_reads_back(event_apdu(ev));
    Service::<Vec<u8>>::lemma_round_trip(group_request(channel, seq, ev));
}

/// The group event that a received message holds: the one of an L_Data
/// indication with a group service. A read comes with an empty value.
pub open spec fn message_event(m: MessageView<Seq<u8>>) -> Option<GroupEvent<Seq<u8>>> {
    match m {
        MessageView::LDataInd(_, d) => match d.data {
            Apdu::GroupValueRead => Some(
                GroupEvent {
                    address: d.destination,
                    event_type: GroupEventType::GroupValueRead,
                    data: Seq::empty(),
                },
            ),
            Apdu::GroupValueResponse(data) => Some(
                GroupEvent {
                    address: d.destination,
                    event_type: GroupEventType::GroupValueResponse,
                    data,
                },
            ),
            Apdu::GroupValueWrite(data) => Some(
                GroupEvent {
                    address: d.destination,
                    event_type: GroupEventType::GroupValueWrite,
                    data,
                },
            ),
            _ => None,
        },
        _ => None,
    }
}

impl Tunnel {
    /// The state with a request behind the waiting ones. Where none waits,
    /// the request is due at once and its timeout starts.
    pub open spec fn with_request(self, bytes: Seq<u8>, now: u64) -> Tunnel {
        let queued = self.out_queue.push(Request { bytes, attempts: 0 });
        if self.out_queue.len() == 0 {
            Tunnel {
                out_queue: queued,
                message_pending: true,
                next_timeout: now.saturating_add(self.config.response_timeout),
                ..self
            }
        } else {
            Tunnel { out_queue: queued, ..self }
        }
    }

    /// The state with a frame that is sent once and not answered.
    pub open spec fn with_ack(self, bytes: Seq<u8>) -> Tunnel {
        Tunnel { ack_queue: self.ack_queue.push(bytes), ..self }
    }

    /// The state without the request in flight. Where another waits, it is
    /// due at once and its timeout starts; where none does, resend and
    /// timeout move one heartbeat interval ahead, beyond the next heartbeat.
    pub open spec fn without_head(self, now: u64) -> Tunnel {
        let rest = if self.out_queue.len() > 0 {
            self.out_queue.skip(1)
        } else {
            self.out_queue
        };
        if rest.len() > 0 {
            Tunnel {
                out_queue: rest,
                message_pending: true,
                next_timeout: now.saturating_add(self.config.response_timeout),
                ..self
            }
        } else {
            Tunnel {
                out_queue: rest,
                next_resent: now.saturating_add(self.config.heartbeat_interval),
                next_timeout: now.saturating_add(self.config.heartbeat_interval),
                ..self
            }
        }
    }

    /// The state after a session reset: nothing waits but a connect request,
    /// both sequence numbers are 0, and the connection is `Connecting`.
    pub open spec fn reconnecting(self, now: u64) -> Tunnel {
        Tunnel {
            out_queue: Seq::empty(),
            ack_queue: Seq::empty(),
            inbound_seq: 0,
            outbound_seq: 0,
            state: TunnelConnectionState::Connecting,
            ..self
        }.with_request(connect_request_frame(self.host_info), now)
    }

    /// The state after the connection asked the gateway to close the channel.
    pub open spec fn disconnecting(self, now: u64) -> Tunnel {
        Tunnel { state: TunnelConnectionState::Disconnecting, ..self }.with_request(
            disconnect_request_frame(self.channel, self.host_info),
            now,
        )
    }

    /// The state of a new connection of the host at `ipv4:port`, made at
    /// `now`.
    pub open spec fn initial(
        ipv4: [u8; 4],
        port: u16,
        config: TunnelConnectionConfig,
        now: u64,
    ) -> Tunnel {
        Tunnel {
            state: TunnelConnectionState::Disconnected,
            awaiting_heartbeat_response: false,
            channel: 0,
            host_info: HPAI { protocol: Protocol::Udp4Protocol, address: ipv4, port },
            outbound_seq: 0,
            inbound_seq: 0,
            out_queue: Seq::empty(),
            ack_queue: Seq::empty(),
            message_pending: true,
            next_resent: now.saturating_add(config.resent_interval),
            next_timeout: now.saturating_add(config.response_timeout),
            next_heartbeat: now.saturating_add(config.heartbeat_interval),
            config,
        }.reconnecting(now)
    }

    /// The state after an event was queued for the bus, given the frame that
    /// carries it.
    pub open spec fn sent(self, frame: Seq<u8>, now: u64) -> Tunnel {
        Tunnel { outbound_seq: self.outbound_seq.wrapping_add(1), ..self }.with_request(frame, now)
    }

    /// What the host is to send next, and the state after it was handed out.
    /// A frame that is not answered goes first and leaves its queue. Else the
    /// request in flight goes, if it is due: it stays in its queue, is no
    /// longer due, counts one more attempt, and is due again one resend
    /// interval after `now`.
    pub open spec fn polled(self, now: u64) -> (Tunnel, Option<Seq<u8>>) {
        if self.ack_queue.len() > 0 {
            (Tunnel { ack_queue: self.ack_queue.skip(1), ..self }, Some(self.ack_queue[0]))
        } else if self.message_pending && self.out_queue.len() > 0 {
            let head = self.out_queue[0];
            (
                Tunnel {
                    message_pending: false,
                    next_resent: now.saturating_add(self.config.resent_interval),
                    out_queue: self.out_queue.update(
                        0,
                        Request { bytes: head.bytes, attempts: head.attempts.saturating_add(1) },
                    ),
                    ..self
                },
                Some(head.bytes),
            )
        } else {
            (self, None)
        }
    }

    /// The earliest of the three deadlines.
    pub open spec fn next_time_event(self) -> u64 {
        let first = if self.next_resent <= self.next_timeout {
            self.next_resent
        } else {
            self.next_timeout
        };
        if self.next_heartbeat <= first {
            self.next_heartbeat
        } else {
            first
        }
    }

    /// The first step at `now`: the request in flight is given up once its
    /// timeout is reached. That ends the session while connecting, and starts
    /// a new one while disconnecting.
    pub open spec fn timed_out(self, now: u64) -> Result<Tunnel, TunnelError> {
        if now >= self.next_timeout && self.out_queue.len() > 0 {
            match self.state {
                TunnelConnectionState::Connecting => Err(TunnelError::ConnectTimeout),
                TunnelConnectionState::Disconnecting => Ok(
                    Tunnel {
                        state: TunnelConnectionState::Disconnected,
                        ..self.without_head(now)
                    }.reconnecting(now),
                ),
                _ => Ok(self.without_head(now)),
            }
        } else {
            Ok(self)
        }
    }

    /// The second step at `now`: once the heartbeat is reached while
    /// connected, the connection probes the gateway, or asks to close the
    /// channel where the last probe is still unanswered; the heartbeat moves
    /// one interval ahead.
    pub open spec fn heartbeat(self, now: u64) -> Tunnel {
        if now >= self.next_heartbeat && self.state == TunnelConnectionState::Connected {
            let probed = if self.awaiting_heartbeat_response {
                self.disconnecting(now)
            } else {
                Tunnel { awaiting_heartbeat_response: true, ..self }.with_request(
                    connection_state_request_frame(self.channel, self.host_info),
                    now,
                )
            };
            Tunnel {
                next_heartbeat: self.next_heartbeat.saturating_add(
                    self.config.heartbeat_interval,
                ),
                ..probed
            }
        } else {
            self
        }
    }

    /// The third step at `now`: once the resend time is reached, the request
    /// in flight is due again.
    pub open spec fn resend_due(self, now: u64) -> Tunnel {
        if now >= self.next_resent && self.out_queue.len() > 0 {
            Tunnel { message_pending: true, ..self }
        } else {
            self
        }
    }

    /// The state after the time events at `now`: timeout, heartbeat and
    /// resend, in this order. A connect request that timed out ends the
    /// session.
    pub open spec fn ticked(self, now: u64) -> Result<Tunnel, TunnelError> {
        match self.timed_out(now) {
            Err(e) => Err(e),
            Ok(s) => Ok(s.heartbeat(now).resend_due(now)),
        }
    }

    /// Whether a tunnel request is taken: it is on this channel and is the
    /// expected one or a repetition of the last.
    pub open spec fn accepts(self, r: TunnelRequestView<Seq<u8>>) -> bool {
        &&& self.channel == r.channel
        &&& (self.inbound_seq == r.seq || self.inbound_seq == r.seq.wrapping_add(1))
    }

    /// The state after a frame from the gateway, and the group event that the
    /// frame brings. A datagram that does not decode changes nothing.
    pub open spec fn received(
        self,
        frame: Result<ServiceView<Seq<u8>>, KnxNetIpError>,
        now: u64,
    ) -> (Tunnel, Option<GroupEvent<Seq<u8>>>) {
        match frame {
            Ok(ServiceView::DisconnectRequest(req)) => if req.channel == self.channel {
                (
                    Tunnel { state: TunnelConnectionState::Disconnected, ..self }.reconnecting(
                        now,
                    ).with_ack(disconnect_response_frame(self.channel)),
                    None,
                )
            } else {
                (self, None)
            },
            Ok(ServiceView::DisconnectResponse(resp)) => if resp.channel == self.channel
                && resp.status == StatusCode::NoError {
                (
                    Tunnel {
                        state: TunnelConnectionState::Disconnected,
                        ..self.without_head(now)
                    }.reconnecting(now),
                    None,
                )
            } else {
                (self, None)
            },
            Ok(ServiceView::ConnectResponse(connect)) => if connect.status
                == StatusCode::NoError {
                (
                    Tunnel {
                        state: TunnelConnectionState::Connected,
                        ..Tunnel {
                            inbound_seq: 0,
                            outbound_seq: 0,
                            channel: connect.channel,
                            ..self
                        }.without_head(now)
                    },
                    None,
                )
            } else {
                (self, None)
            },
            Ok(ServiceView::ConnectionstateResponse(res)) => {
                let answered = Tunnel { awaiting_heartbeat_response: false, ..self }.without_head(
                    now,
                );
                if res.status == StatusCode::NoError {
                    (answered, None)
                } else {
                    (
                        Tunnel {
                            state: TunnelConnectionState::Disconnected,
                            ..answered
                        }.reconnecting(now),
                        None,
                    )
                }
            },
            Ok(ServiceView::TunnelAck(ack)) => if ack.status == StatusCode::NoError {
                (self.without_head(now), None)
            } else {
                (self, None)
            },
            Ok(ServiceView::TunnelRequest(req)) => if self.accepts(req) {
                (
                    Tunnel { inbound_seq: req.seq.wrapping_add(1), ..self }.with_ack(
                        tunnel_ack_frame(req.channel, req.seq),
                    ),
                    if self.inbound_seq == req.seq {
                        message_event(req.data)
                    } else {
                        None
                    },
                )
            } else {
                (self, None)
            },
            _ => (self, None),
        }
    }
}

impl Tunnel {
    /// A new connection offers its connect request exactly once. The first
    /// frame it hands out is a connect request for a link layer tunnel that
    /// names the host as control and as data endpoint; asked again at once,
    /// it hands out nothing and stays as it is.
    pub proof fn lemma_connect_request_offered_once(
        ipv4: [u8; 4],
        port: u16,
        config: TunnelConnectionConfig,
        made: u64,
        first_poll: u64,
        second_poll: u64,
    )
        ensures
            ({
                let host = HPAI { protocol: Protocol::Udp4Protocol, address: ipv4, port };
                let fresh = Tunnel::initial(ipv4, port, config, made);
                let (offered, first) = fresh.polled(first_poll);
                let (after, second) = offered.polled(second_poll);
                &&& fresh.state == TunnelConnectionState::Connecting
                &&& first == Some(connect_request_frame(host))
                &&& Service::<()>::parse(connect_request_frame(host)) == Ok::<
                    ServiceView<()>,
                    KnxNetIpError,
                >(
                    ServiceView::ConnectRequest(
                        ConnectRequest {
                            data: host,
                            control: host,
                            connection_type: ConnectionReqType::TunnelConnection {
                                layer: TunnelingLayer::TunnelLinkLayer,
                            },
                        },
                    ),
                )
                &&& second is None
                &&& after == offered
            }),
    {
        let host = HPAI { protocol: Protocol::Udp4Protocol, address: ipv4, port };
        Service::<()>::lemma_round_trip(
            ServiceView::ConnectRequest(
                ConnectRequest {
                    data: host,
                    control: host,
                    connection_type: ConnectionReqType::TunnelConnection {
                        layer: TunnelingLayer::TunnelLinkLayer,
                    },
                },
            ),
        );
    }

    /// A request that was handed out rests until a deadline is reached: as
    /// long as no unanswered frame waits, a poll hands out nothing, and the
    /// time events before resend, timeout and heartbeat change nothing.
    pub proof fn lemma_request_rests(self, now: u64, poll: u64)
        requires
            !self.message_pending,
            self.ack_queue.len() == 0,
            now < self.next_time_event(),
        ensures
            self.polled(poll) == (self, None::<Seq<u8>>),
            self.ticked(now) == Ok::<Tunnel, TunnelError>(self),
    {
    }

    /// A request that was handed out is offered again once its resend time is
    /// reached, as long as its timeout is not: where no unanswered frame
    /// waits and the heartbeat does not ask to close the channel, the time
    /// events leave the request in flight due, and the next poll hands out
    /// the same frame.
    pub proof fn lemma_request_offered_again(self, now: u64, poll: u64)
        requires
            self.out_queue.len() > 0,
            self.ack_queue.len() == 0,
            self.next_resent <= now < self.next_timeout,
        ensures
            self.ticked(now) matches Ok(due) && due.polled(poll).1 == Some(
                self.out_queue[0].bytes,
            ),
    {
    }

    /// A connect response without error opens the channel: the connection is
    /// connected on the channel that the gateway names, both sequence numbers
    /// are 0, the request in flight has left its queue, and no event comes
    /// out. Where nothing else waited, the next poll hands out nothing.
    pub proof fn lemma_connect_response_opens_channel(
        self,
        response: ConnectResponse,
        now: u64,
        poll: u64,
    )
        requires
            response.status == StatusCode::NoError,
        ensures
            ({
                let (open, event) = self.received(
                    Ok(ServiceView::ConnectResponse(response)),
                    now,
                );
                &&& event is None
                &&& open.state == TunnelConnectionState::Connected
                &&& open.channel == response.channel
                &&& open.inbound_seq == 0
                &&& open.outbound_seq == 0
                &&& self.out_queue.len() > 0 ==> open.out_queue == self.out_queue.skip(1)
                &&& self.out_queue.len() <= 1 && self.ack_queue.len() == 0 ==> open.polled(
                    poll,
                ).1 is None
            }),
    {
    }

    /// A new connection whose connect request the gateway answers without
    /// error is connected and has nothing to send.
    pub proof fn lemma_new_connection_opens(
        ipv4: [u8; 4],
        port: u16,
        config: TunnelConnectionConfig,
        response: ConnectResponse,
        made: u64,
        first_poll: u64,
        answered: u64,
        second_poll: u64,
    )
        requires
            response.status == StatusCode::NoError,
        ensures
            ({
                let offered = Tunnel::initial(ipv4, port, config, made).polled(first_poll).0;
                let open = offered.received(
                    Ok(ServiceView::ConnectResponse(response)),
                    answered,
                ).0;
                &&& open.state == TunnelConnectionState::Connected
                &&& open.channel == response.channel
                &&& open.inbound_seq == 0
                &&& open.outbound_seq == 0
                &&& open.out_queue.len() == 0
                &&& open.polled(second_poll).1 is None
            }),
    {
    }

    /// A repetition of the last tunnel request is acknowledged under its own
    /// sequence number and not delivered again: the state gains the
    /// acknowledgement and is otherwise as before, and no event comes out.
    pub proof fn lemma_repeated_request_acked_not_delivered(
        self,
        request: TunnelRequestView<Seq<u8>>,
        now: u64,
    )
        requires
            request.channel == self.channel,
            request.seq == self.inbound_seq.wrapping_sub(1),
        ensures
            self.received(Ok(ServiceView::TunnelRequest(request)), now) == (
                self.with_ack(tunnel_ack_frame(request.channel, request.seq)),
                None::<GroupEvent<Seq<u8>>>,
            ),
    {
        assert(request.seq.wrapping_add(1) == self.inbound_seq);
        assert(request.seq != self.inbound_seq);
        let taken = Tunnel { inbound_seq: request.seq.wrapping_add(1), ..self };
        assert(taken == self);
    }

    /// The expected tunnel request is acknowledged and delivered: the
    /// inbound sequence number moves on by one, and the event of the message
    /// comes out.
    pub proof fn lemma_expected_request_acked_and_delivered(
        self,
        request: TunnelRequestView<Seq<u8>>,
        now: u64,
    )
        requires
            request.channel == self.channel,
            request.seq == self.inbound_seq,
        ensures
            self.received(Ok(ServiceView::TunnelRequest(request)), now) == (
                Tunnel { inbound_seq: self.inbound_seq.wrapping_add(1), ..self }.with_ack(
                    tunnel_ack_frame(request.channel, request.seq),
                ),
                message_event(request.data),
            ),
    {
    }

    /// A tunnel request on another channel, or with a sequence number that
    /// is neither the expected one nor the one before it, is ignored: no
    /// acknowledgement, no event, no change.
    pub proof fn lemma_foreign_request_ignored(
        self,
        request: TunnelRequestView<Seq<u8>>,
        now: u64,
    )
        requires
            request.channel != self.channel || (request.seq != self.inbound_seq
                && request.seq != self.inbound_seq.wrapping_sub(1)),
        ensures
            self.received(Ok(ServiceView::TunnelRequest(request)), now) == (
                self,
                None::<GroupEvent<Seq<u8>>>,
            ),
    {
        if request.channel == self.channel {
            assert(request.seq.wrapping_add(1) != self.inbound_seq);
        }
    }

    /// A datagram that does not decode changes nothing and brings no event.
    pub proof fn lemma_malformed_datagram_ignored(self, error: KnxNetIpError, now: u64)
        ensures
            self.received(Err(error), now) == (self, None::<GroupEvent<Seq<u8>>>),
    {
    }

    /// The second heartbeat in a row that finds the last probe unanswered
    /// closes the channel: the connection queues a disconnect request and is
    /// disconnecting.
    pub proof fn lemma_second_missed_heartbeat_disconnects(self, now: u64)
        requires
            self.state == TunnelConnectionState::Connected,
            self.awaiting_heartbeat_response,
            now >= self.next_heartbeat,
        ensures
            self.ticked(now) matches Ok(closing) && {
                &&& closing.state == TunnelConnectionState::Disconnecting
                &&& closing.out_queue.len() > 0
                &&& closing.out_queue.last() == (Request {
                    bytes: disconnect_request_frame(self.channel, self.host_info),
                    attempts: 0,
                })
                &&& closing.next_heartbeat == self.next_heartbeat.saturating_add(
                    self.config.heartbeat_interval,
                )
            },
    {
    }

    /// The first heartbeat of a connected channel whose last probe was
    /// answered probes again and waits for the answer.
    pub proof fn lemma_heartbeat_probes(self, now: u64)
        requires
            self.state == TunnelConnectionState::Connected,
            !self.awaiting_heartbeat_response,
            now >= self.next_heartbeat,
        ensures
            self.ticked(now) matches Ok(probing) && {
                &&& probing.state == TunnelConnectionState::Connected
                &&& probing.awaiting_heartbeat_response
                &&& probing.out_queue.len() > 0
                &&& probing.out_queue.last() == (Request {
                    bytes: connection_state_request_frame(self.channel, self.host_info),
                    attempts: 0,
                })
            },
    {
    }
}

impl Tunnel {
    /// Whether the deadlines are in order at `seen`, the latest time that was
    /// handed to the connection: the heartbeat lies at most one interval
    /// ahead, and while no request waits, resend and timeout lie at or beyond
    /// the heartbeat, so that the heartbeat is the next time event.
    pub open spec fn timers_in_order(self, seen: u64) -> bool {
        &&& self.next_heartbeat <= seen.saturating_add(self.config.heartbeat_interval)
        &&& self.out_queue.len() == 0 ==> {
            &&& self.next_timeout >= self.next_heartbeat
            &&& self.next_resent >= self.next_heartbeat
            &&& self.next_time_event() == self.next_heartbeat
        }
    }

    /// The deadlines of a new connection are in order.
    pub proof fn lemma_timers_start_in_order(
        ipv4: [u8; 4],
        port: u16,
        config: TunnelConnectionConfig,
        made: u64,
    )
        ensures
            Tunnel::initial(ipv4, port, config, made).timers_in_order(made),
    {
    }

    /// The deadlines stay in order as long as time does not run backwards:
    /// whatever the host does at a time `now` no earlier than the latest time
    /// before it, the deadlines are in order at `now` afterwards.
    pub proof fn lemma_timers_stay_in_order(
        self,
        seen: u64,
        now: u64,
        frame: Seq<u8>,
        datagram: Result<ServiceView<Seq<u8>>, KnxNetIpError>,
    )
        requires
            self.timers_in_order(seen),
            seen <= now,
        ensures
            self.sent(frame, now).timers_in_order(now),
            self.polled(now).0.timers_in_order(now),
            self.ticked(now) matches Ok(after) ==> after.timers_in_order(now),
            self.received(datagram, now).0.timers_in_order(now),
    {
        let rest = self.without_head(now);
        assert(rest.next_heartbeat == self.next_heartbeat);
        assert(rest.timers_in_order(now));
        match self.timed_out(now) {
            Ok(after) => {
                assert(after.timers_in_order(now));
                assert(after.heartbeat(now).timers_in_order(now));
            },
            Err(_) => {},
        }
    }
}

/// The requests that a queue of waiting frames stands for.
spec fn requests(queue: Seq<OutMessage>) -> Seq<Request> {
    queue.map_values(|m: OutMessage| Request { bytes: m.data@, attempts: m.retried })
}

/// The frames that a queue of waiting frames holds.
spec fn frames(queue: Seq<OutMessage>) -> Seq<Seq<u8>> {
    queue.map_values(|m: OutMessage| m.data@)
}

/// One tunnelling channel to a gateway.
#[derive(Debug)]
pub struct TunnelConnection {
    state: TunnelConnectionState,
    awaiting_heartbeat_response: bool,
    channel: u8,
    host_info: HPAI,
    outbound_seq: u8,
    inbound_seq: u8,
    out_queue: VecDeque<OutMessage>,
    ack_queue: VecDeque<OutMessage>,
    /// The frame that was handed out last from the queue of unanswered
    /// frames; it lives here while the host sends it.
    pending_bytes: Vec<u8>,
    message_pending: bool,
    next_resent: u64,
    next_timeout: u64,
    next_heartbeat: u64,
    config: TunnelConnectionConfig,
}

impl View for TunnelConnection {
    type V = Tunnel;

    closed spec fn view(&self) -> Tunnel {
        Tunnel {
            state: self.state,
            awaiting_heartbeat_response: self.awaiting_heartbeat_response,
            channel: self.channel,
            host_info: self.host_info,
            outbound_seq: self.outbound_seq,
            inbound_seq: self.inbound_seq,
            out_queue: requests(self.out_queue@),
            ack_queue: frames(self.ack_queue@),
            message_pending: self.message_pending,
            next_resent: self.next_resent,
            next_timeout: self.next_timeout,
            next_heartbeat: self.next_heartbeat,
            config: self.config,
        }
    }
}

impl TunnelConnection {
    /// A connection of the host that listens at `ipv4:port`, made at `now`.
    /// Its connect request waits to be sent.
    pub fn new(ipv4: [u8; 4], port: u16, config: TunnelConnectionConfig, now: u64) -> (con:
        TunnelConnection)
        ensures
            con@ == Tunnel::initial(ipv4, port, config, now),
    {
        let host_info = HPAI::new(Protocol::Udp4Protocol, ipv4, port);
        let mut con = TunnelConnection {
            state: TunnelConnectionState::Disconnected,
            awaiting_heartbeat_response: false,
            channel: 0,
            next_resent: now.saturating_add(config.resent_interval),
            next_timeout: now.saturating_add(config.response_timeout),
            next_heartbeat: now.saturating_add(config.heartbeat_interval),
            config,
            outbound_seq: 0,
            inbound_seq: 0,
            out_queue: VecDeque::new(),
            ack_queue: VecDeque::new(),
            host_info,
            message_pending: true,
            pending_bytes: Vec::new(),
        };
        proof {
            assert(con@.out_queue =~= Seq::empty());
            assert(con@.ack_queue =~= Seq::empty());
        }
        con.send_connect_request(now);
        con
    }

    /// Queues a group event for the bus, under the channel and the next
    /// outbound sequence number, which then moves on by one and wraps.
    pub fn send<T: DPT + Default>(&mut self, ev: GroupEvent<T>, now: u64)
        requires
            sendable::<T>(ev@),
        ensures
            final(self)@ == old(self)@.sent(
                Service::<T>::bytes(
                    group_request(old(self)@.channel, old(self)@.outbound_seq, ev@),
                ),
                now,
            ),
    {
        let sent = self.try_send(ev, now);
        assert(sent);
    }

    /// Queues a group event for the bus if it can be sent, and says whether
    /// it could. An event that cannot be sent changes nothing.
    pub fn try_send<T: DPT + Default>(&mut self, ev: GroupEvent<T>, now: u64) -> (sent: bool)
        ensures
            sent == sendable::<T>(ev@),
            sent ==> final(self)@ == old(self)@.sent(
                Service::<T>::bytes(
                    group_request(old(self)@.channel, old(self)@.outbound_seq, ev@),
                ),
                now,
            ),
            !sent ==> final(self)@ == old(self)@,
    {
        let mut telegram = LData::<T>::default();
        telegram.destination = ev.address;
        telegram.data = match ev.event_type {
            GroupEventType::GroupValueRead => Apdu::GroupValueRead,
            GroupEventType::GroupValueWrite => Apdu::GroupValueWrite(ev.data),
            GroupEventType::GroupValueResponse => Apdu::GroupValueResponse(ev.data),
        };
        let req = Service::TunnelRequest(
            TunnelRequest {
                channel: self.channel,
                seq: self.outbound_seq,
                data: Message::<T>::LDataReq(Vec::new(), telegram),
            },
        );
        assert(req@ == group_request(self.channel, self.outbound_seq, ev@));
        if !req.is_encodable() {
            return false;
        }
        self.outbound_seq = self.outbound_seq.wrapping_add(1);
        self.push_out_message(OutMessage { data: req.encoded(), need_ack: true, retried: 0 }, now);
        true
    }

    /// The next frame to send, if any. It is valid until the next call that
    /// changes the connection.
    pub fn get_outbound_data(&mut self, now: u64) -> (data: Option<&[u8]>)
        ensures
            final(self)@ == old(self)@.polled(now).0,
            match old(self)@.polled(now).1 {
                Some(bytes) => data matches Some(d) && d@ == bytes,
                None => data is None,
            },
    {
        if self.ack_queue.len() > 0 {
            match self.ack_queue.pop_front() {
                Some(msg) => {
                    self.pending_bytes = msg.data;
                    proof {
                        assert(frames(self.ack_queue@) =~= frames(old(self).ack_queue@).skip(1));
                    }
                    return Some(self.pending_bytes.as_slice());
                },
                None => {
                    return None;
                },
            }
        }
        proof {
            assert(frames(self.ack_queue@).len() == 0);
        }
        if self.message_pending && self.out_queue.len() > 0 {
            match self.out_queue.pop_front() {
                Some(mut msg) => {
                    self.message_pending = false;
                    self.next_resent = now.saturating_add(self.config.resent_interval);
                    msg.retried = msg.retried.saturating_add(1);
                    self.out_queue.push_front(msg);
                    proof {
                        let head = requests(old(self).out_queue@)[0];
                        assert(requests(self.out_queue@) =~= requests(old(self).out_queue@).update(
                            0,
                            Request {
                                bytes: head.bytes,
                                attempts: head.attempts.saturating_add(1),
                            },
                        ));
                    }
                    return Some(self.out_queue[0].data.as_slice());
                },
                None => {
                    return None;
                },
            }
        }
        proof {
            assert(requests(self.out_queue@).len() == self.out_queue@.len());
        }
        None
    }

    /// Takes the request in flight out of its queue.
    fn remove_first_message(&mut self, now: u64)
        ensures
            final(self)@ == old(self)@.without_head(now),
    {
        let _ = self.out_queue.pop_front();
        proof {
            if old(self).out_queue@.len() > 0 {
                assert(requests(self.out_queue@) =~= requests(old(self).out_queue@).skip(1));
            } else {
                assert(requests(self.out_queue@) =~= requests(old(self).out_queue@));
            }
        }
        if self.out_queue.len() > 0 {
            self.message_pending = true;
            self.next_timeout = now.saturating_add(self.config.response_timeout);
        } else {
            self.next_resent = now.saturating_add(self.config.heartbeat_interval);
            self.next_timeout = now.saturating_add(self.config.heartbeat_interval);
        }
    }

    /// The request in flight was answered: it leaves its queue.
    fn handle_outbount_send(&mut self, now: u64)
        ensures
            final(self)@ == old(self)@.without_head(now),
    {
        self.remove_first_message(now);
    }

    /// The earliest deadline: the host calls `handle_time_events` no later
    /// than this.
    pub fn get_next_time_event(&self) -> (deadline: u64)
        ensures
            deadline == self@.next_time_event(),
    {
        let first = if self.next_resent <= self.next_timeout {
            self.next_resent
        } else {
            self.next_timeout
        };
        if self.next_heartbeat <= first {
            self.next_heartbeat
        } else {
            first
        }
    }

    /// Whether the channel is open.
    pub fn connected(&self) -> (open: bool)
        ensures
            open == (self@.state == TunnelConnectionState::Connected),
    {
        self.state == TunnelConnectionState::Connected
    }

    /// Handles what is due at `now`: the timeout of the request in flight,
    /// the heartbeat, the resend. Where the connect request timed out, the
    /// session has failed: the connection stays as it was and the error says
    /// so.
    pub fn handle_time_events(&mut self, now: u64) -> (r: Result<(), TunnelError>)
        ensures
            match old(self)@.ticked(now) {
                Ok(s) => r is Ok && final(self)@ == s,
                Err(e) => r == Err::<(), TunnelError>(e) && final(self)@ == old(self)@,
            },
    {
        proof {
            assert(requests(self.out_queue@).len() == self.out_queue@.len());
        }
        if now >= self.next_timeout && self.out_queue.len() > 0 {
            match self.state {
                TunnelConnectionState::Connecting => {
                    return Err(TunnelError::ConnectTimeout);
                },
                TunnelConnectionState::Disconnected | TunnelConnectionState::Connected => {
                    self.remove_first_message(now);
                },
                TunnelConnectionState::Disconnecting => {
                    self.remove_first_message(now);
                    self.state = TunnelConnectionState::Disconnected;
                    self.send_connect_request(now);
                },
            }
        }
        assert(Ok::<Tunnel, TunnelError>(self@) == old(self)@.timed_out(now));
        let ghost after_timeout = self@;
        if now >= self.next_heartbeat && self.state == TunnelConnectionState::Connected {
            if self.awaiting_heartbeat_response {
                self.send_disconnect_request(now);
            } else {
                self.send_connection_state_request(now);
                self.awaiting_heartbeat_response = true;
            }
            self.next_heartbeat = self.next_heartbeat.saturating_add(
                self.config.heartbeat_interval,
            );
        }
        assert(self@ == after_timeout.heartbeat(now));
        proof {
            assert(requests(self.out_queue@).len() == self.out_queue@.len());
        }
        if now >= self.next_resent && self.out_queue.len() > 0 {
            self.message_pending = true;
        }
        Ok(())
    }

    /// Takes a datagram from the gateway. A datagram that does not decode
    /// changes nothing. Returns the group event that the datagram brings, if
    /// it brings one.
    pub fn handle_inbound_message(&mut self, data: &[u8], now: u64) -> (event: Option<
        GroupEvent<Vec<u8>>,
    >)
        ensures
            final(self)@ == old(self)@.received(Service::<Vec<u8>>::parse(data@), now).0,
            match old(self)@.received(Service::<Vec<u8>>::parse(data@), now).1 {
                Some(ev) => event matches Some(e) && e@ == ev,
                None => event is None,
            },
    {
        let service = match Service::<Vec<u8>>::decoded(data) {
            Ok(s) => s,
            Err(_) => return None,
        };
        match service {
            Service::DisconnectRequest(req) => {
                if req.channel == self.channel {
                    let response = Service::<()>::DisconnectResponse(
                        DisconnectResponse { channel: self.channel, status: StatusCode::NoError },
                    );
                    self.state = TunnelConnectionState::Disconnected;
                    self.send_connect_request(now);
                    self.push_out_message(
                        OutMessage { data: response.encoded(), need_ack: false, retried: 0 },
                        now,
                    );
                }
                None
            },
            Service::DisconnectResponse(resp) => {
                if resp.channel == self.channel && resp.status == StatusCode::NoError {
                    self.handle_outbount_send(now);
                    self.state = TunnelConnectionState::Disconnected;
                    self.send_connect_request(now);
                }
                None
            },
            Service::ConnectResponse(connect) => {
                if connect.status == StatusCode::NoError {
                    self.inbound_seq = 0;
                    self.outbound_seq = 0;
                    self.channel = connect.channel;
                    self.handle_outbount_send(now);
                    self.state = TunnelConnectionState::Connected;
                }
                None
            },
            Service::ConnectionstateResponse(con_res) => {
                self.awaiting_heartbeat_response = false;
                self.handle_outbount_send(now);
                if con_res.status != StatusCode::NoError {
                    self.state = TunnelConnectionState::Disconnected;
                    self.send_connect_request(now);
                }
                None
            },
            Service::TunnelAck(tack) => {
                if tack.status == StatusCode::NoError {
                    self.handle_outbount_send(now);
                }
                None
            },
            Service::TunnelRequest(treq) => {
                let expected = self.inbound_seq == treq.seq;
                if !(expected || self.inbound_seq == treq.seq.wrapping_add(1)) || self.channel
                    != treq.channel {
                    return None;
                }
                let ack = Service::<()>::TunnelAck(
                    TunnelAck { seq: treq.seq, channel: treq.channel, status: StatusCode::NoError },
                );
                self.push_out_message(
                    OutMessage { data: ack.encoded(), need_ack: false, retried: 0 },
                    now,
                );
                self.inbound_seq = treq.seq.wrapping_add(1);
                if !expected {
                    return None;
                }
                match treq.data {
                    Message::LDataInd(_, d) => match d.data {
                        Apdu::GroupValueRead => {
                            let data: Vec<u8> = Vec::new();
                            Some(
                                GroupEvent {
                                    data,
                                    address: d.destination,
                                    event_type: GroupEventType::GroupValueRead,
                                },
                            )
                        },
                        Apdu::GroupValueResponse(data) => Some(
                            GroupEvent {
                                data,
                                address: d.destination,
                                event_type: GroupEventType::GroupValueResponse,
                            },
                        ),
                        Apdu::GroupValueWrite(data) => Some(
                            GroupEvent {
                                data,
                                address: d.destination,
                                event_type: GroupEventType::GroupValueWrite,
                            },
                        ),
                        _ => None,
                    },
                    _ => None,
                }
            },
            _ => None,
        }
    }

    /// Puts a frame into the queue that its kind asks for.
    fn push_out_message(&mut self, msg: OutMessage, now: u64)
        requires
            msg.retried == 0,
        ensures
            msg.need_ack ==> final(self)@ == old(self)@.with_request(msg.data@, now),
            !msg.need_ack ==> final(self)@ == old(self)@.with_ack(msg.data@),
    {
        if !msg.need_ack {
            self.ack_queue.push_back(msg);
            proof {
                assert(frames(self.ack_queue@) =~= frames(old(self).ack_queue@).push(msg.data@));
            }
            return ;
        }
        proof {
            assert(requests(self.out_queue@).len() == self.out_queue@.len());
        }
        if self.out_queue.len() == 0 {
            self.message_pending = true;
            self.next_timeout = now.saturating_add(self.config.response_timeout);
        }
        self.out_queue.push_back(msg);
        proof {
            assert(requests(self.out_queue@) =~= requests(old(self).out_queue@).push(
                Request { bytes: msg.data@, attempts: 0 },
            ));
        }
    }

    /// Queues a probe of the connection state.
    fn send_connection_state_request(&mut self, now: u64)
        ensures
            final(self)@ == old(self)@.with_request(
                connection_state_request_frame(old(self)@.channel, old(self)@.host_info),
                now,
            ),
    {
        let req: Service<()> = Service::ConnectionstateRequest(
            ConnectionstateRequest { channel: self.channel, control: self.host_info },
        );
        self.push_out_message(OutMessage { data: req.encoded(), need_ack: true, retried: 0 }, now);
    }

    /// Resets the session and queues a connect request.
    fn send_connect_request(&mut self, now: u64)
        ensures
            final(self)@ == old(self)@.reconnecting(now),
    {
        let tunnel_request: Service<()> = Service::ConnectRequest(
            ConnectRequest {
                data: self.host_info,
                control: self.host_info,
                connection_type: ConnectionReqType::TunnelConnection {
                    layer: TunnelingLayer::TunnelLinkLayer,
                },
            },
        );
        let buf = tunnel_request.encoded();
        self.out_queue.clear();
        self.ack_queue.clear();
        self.inbound_seq = 0;
        self.outbound_seq = 0;
        self.state = TunnelConnectionState::Connecting;
        proof {
            assert(requests(self.out_queue@) =~= Seq::empty());
            assert(frames(self.ack_queue@) =~= Seq::empty());
        }
        self.push_out_message(OutMessage { data: buf, need_ack: true, retried: 0 }, now);
    }

    /// Queues a disconnect request.
    fn send_disconnect_request(&mut self, now: u64)
        ensures
            final(self)@ == old(self)@.disconnecting(now),
    {
        let disconnect_request: Service<()> = Service::DisconnectRequest(
            DisconnectRequest { channel: self.channel, control: self.host_info },
        );
        let buf = disconnect_request.encoded();
        self.state = TunnelConnectionState::Disconnecting;
        self.push_out_message(OutMessage { data: buf, need_ack: true, retried: 0 }, now);
    }
}

} // verus!

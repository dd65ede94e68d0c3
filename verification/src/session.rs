//! The order of things once the broker is reached: subscribe to every topic, one after
//! the other, then look after the touch pads for as long as the clock runs.

use vstd::prelude::*;

use crate::message::MQTT_TOPIC_HEX;
use crate::message::MQTT_TOPIC_HSV;
use crate::message::MQTT_TOPIC_MODE;
use crate::message::MQTT_TOPIC_PROGRESS;
use crate::message::MQTT_TOPIC_RGB;
use crate::message::MQTT_TOPIC_WARM;
use crate::message::MQTT_TOPIC_WHEEL_SPEED;

verus! {

/// How many topics the lamp listens to.
pub const NUM_TOPICS: usize = 7;

/// How long to wait before a subscription is tried again, in milliseconds.
pub const RETRY_MILLIS: u64 = 500;

/// How long to wait between two rounds of the touch pads, in milliseconds.
pub const TICK_MILLIS: u64 = 10;

/// The topics that the lamp listens to, in the order in which it subscribes.
pub open spec fn topics() -> Seq<Seq<char>> {
    seq![
        MQTT_TOPIC_MODE@,
        MQTT_TOPIC_RGB@,
        MQTT_TOPIC_HSV@,
        MQTT_TOPIC_HEX@,
        MQTT_TOPIC_WARM@,
        MQTT_TOPIC_PROGRESS@,
        MQTT_TOPIC_WHEEL_SPEED@,
    ]
}

/// How far a session has come.
#[derive(Debug, Clone, Copy, PartialEq, Eq, Structural)]
pub enum Stage {
    /// About to subscribe to the topic with this number.
    Subscribing(usize),
    /// Waiting to try that topic again.
    Retrying(usize),
    /// About to look after the touch pads.
    Ticking,
    /// Waiting for the next round.
    Pausing,
    /// The clock has failed, and nothing goes on.
    Failed,
}

/// What to do next.
#[derive(Debug, Clone, Copy)]
pub enum Action {
    /// Subscribe to a topic.
    Subscribe(&'static str),
    /// Wait for so many milliseconds.
    Wait(u64),
    /// Look after the touch pads once.
    Tick,
    /// Give up, with the error that the last action ended in.
    Stop,
}

/// The stage that follows when the action of a stage has succeeded, or has failed.
pub open spec fn stage_after(stage: Stage, success: bool) -> Stage {
    match stage {
        Stage::Subscribing(index) => if !success {
            Stage::Retrying(index)
        } else if index + 1 < NUM_TOPICS {
            Stage::Subscribing((index + 1) as usize)
        } else {
            Stage::Ticking
        },
        Stage::Retrying(index) => if success {
            Stage::Subscribing(index)
        } else {
            Stage::Failed
        },
        Stage::Ticking => Stage::Pausing,
        Stage::Pausing => if success {
            Stage::Ticking
        } else {
            Stage::Failed
        },
        Stage::Failed => Stage::Failed,
    }
}

/// Whether an action is the one that belongs to a stage.
pub open spec fn is_action_of(stage: Stage, action: Action) -> bool {
    match stage {
        Stage::Subscribing(index) => action matches Action::Subscribe(topic) && topic@
            == topics()[index as int],
        Stage::Retrying(_) => action == Action::Wait(RETRY_MILLIS),
        Stage::Ticking => action == Action::Tick,
        Stage::Pausing => action == Action::Wait(TICK_MILLIS),
        Stage::Failed => action == Action::Stop,
    }
}

/// A session with the broker.
#[derive(Debug)]
pub struct Session {
    stage: Stage,
}

impl View for Session {
    type V = Stage;

    closed spec fn view(&self) -> Stage {
        self.stage
    }
}

impl Session {
    #[verifier::type_invariant]
    spec fn valid(&self) -> bool {
        match self.stage {
            Stage::Subscribing(index) => index < NUM_TOPICS,
            Stage::Retrying(index) => index < NUM_TOPICS,
            _ => true,
        }
    }

    /// A session that has subscribed to nothing yet.
    pub fn new() -> (session: Session)
        ensures
            session@ == Stage::Subscribing(0),
    {
        Session { stage: Stage::Subscribing(0) }
    }

    /// What to do next.
    pub fn action(&self) -> (action: Action)
        ensures
            is_action_of(self@, action),
    {
        proof {
            use_type_invariant(self);
        }
        match self.stage {
            Stage::Subscribing(index) => Action::Subscribe(
                match index {
                    0 => MQTT_TOPIC_MODE,
                    1 => MQTT_TOPIC_RGB,
                    2 => MQTT_TOPIC_HSV,
                    3 => MQTT_TOPIC_HEX,
                    4 => MQTT_TOPIC_WARM,
                    5 => MQTT_TOPIC_PROGRESS,
                    _ => MQTT_TOPIC_WHEEL_SPEED,
                },
            ),
            Stage::Retrying(_) => Action::Wait(RETRY_MILLIS),
            Stage::Ticking => Action::Tick,
            Stage::Pausing => Action::Wait(TICK_MILLIS),
            Stage::Failed => Action::Stop,
        }
    }

    /// Goes on from the last action, which has succeeded or failed.
    pub fn proceed(&mut self, success: bool)
        ensures
            final(self)@ == stage_after(old(self)@, success),
    {
        proof {
            use_type_invariant(&*self);
        }
        self.stage = match self.stage {
            Stage::Subscribing(index) => if !success {
                Stage::Retrying(index)
            } else if index + 1 < NUM_TOPICS {
                Stage::Subscribing(index + 1)
            } else {
                Stage::Ticking
            },
            Stage::Retrying(index) => if success {
                Stage::Subscribing(index)
            } else {
                Stage::Failed
            },
            Stage::Ticking => Stage::Pausing,
            Stage::Pausing => if success {
                Stage::Ticking
            } else {
                Stage::Failed
            },
            Stage::Failed => Stage::Failed,
        };
    }
}

} // verus!

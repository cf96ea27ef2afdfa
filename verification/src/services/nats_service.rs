//! The registered NATS consumer.

use vstd::prelude::*;

verus! {

/// Subject and queue group of the registered consumer.
pub fn consumer_subscription() -> (r: (String, String))
    ensures
        r.0@ == "TEST1.abc.dd"@,
        r.1@ == "queue1.a.1"@,
{
    (String::from_str("TEST1.abc.dd"), String::from_str("queue1.a.1"))
}

fn topic_queue(prefix: &str, topic: &str, queue: &str) -> (r: String)
    ensures
        r@ == prefix@ + topic@ + "` queue `"@ + queue@ + "`"@,
{
    let mut s = String::from_str(prefix);
    s.append(topic);
    s.append("` queue `");
    s.append(queue);
    s.append("`");
    s
}

/// Line logged after subscribing: success, or the error.
pub fn subscribe_line(topic: &str, queue: &str, result: Result<(), String>) -> (r: String)
    ensures
        match result {
            Ok(()) => r@ == "Subscribe topic `"@ + topic@ + "` queue `"@ + queue@ + "`"@ + " success"@,
            Err(e) => r@ == "[NATS] Create queue subscriber for topic `"@ + topic@ + "` queue `"@ + queue@ + "`"@
                + " fail | "@ + e@,
        },
{
    match result {
        Ok(()) => {
            let mut s = topic_queue("Subscribe topic `", topic, queue);
            s.append(" success");
            s
        },
        Err(e) => {
            let mut s = topic_queue("[NATS] Create queue subscriber for topic `", topic, queue);
            s.append(" fail | ");
            s.append(e.as_str());
            s
        },
    }
}

/// Line logged for each message received, given its debug text.
pub fn message_line(topic: &str, queue: &str, message: &str) -> (r: String)
    ensures
        r@ == "[IN] topic `"@ + topic@ + "` queue `"@ + queue@ + "`"@ + ": message: "@ + message@,
{
    let mut s = topic_queue("[IN] topic `", topic, queue);
    s.append(": message: ");
    s.append(message);
    s
}

} // verus!

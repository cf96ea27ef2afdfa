//! Kafka producer messages.

use vstd::prelude::*;

verus! {

/// Line logged when a message is sent to a topic.
pub fn send_message_line(topic: &str, payload: &str) -> (r: String)
    ensures
        r@ == "Send Kafka Message to topic `"@ + topic@ + "`: body `"@ + payload@ + "`"@,
{
    let mut s = String::from_str("Send Kafka Message to topic `");
    s.append(topic);
    s.append("`: body `");
    s.append(payload);
    s.append("`");
    s
}

/// Producer settings taken from the Kafka settings: the bootstrap servers
/// and the message timeout, as `(key, value)` pairs.
pub fn producer_settings(url: &str, message_timeout: &str) -> (r: Vec<(String, String)>)
    ensures
        r@.len() == 2,
        r@[0].0@ == "bootstrap.servers"@ && r@[0].1@ == url@,
        r@[1].0@ == "message.timeout.ms"@ && r@[1].1@ == message_timeout@,
{
    let mut v: Vec<(String, String)> = Vec::new();
    v.push((String::from_str("bootstrap.servers"), String::from_str(url)));
    v.push((String::from_str("message.timeout.ms"), String::from_str(message_timeout)));
    v
}

} // verus!

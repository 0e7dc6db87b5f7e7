use vstd::prelude::*;
use vstd::string::*;

use super::infopush::PushMessage;
use crate::classifier::category::{SmsCategory, emoji_text, label_text};
use crate::time::{UtcTime, format_utc, full_time_format, utc_format, within_chrono_range};

verus! {

/// How the time of a message is written in a push.
pub open spec fn push_time_format() -> Seq<char> {
    full_time_format()
}

/// The title of a push: the category's emoji and the sender in brackets.
pub open spec fn push_title(sender: Seq<char>, category: SmsCategory) -> Seq<char> {
    emoji_text(category) + " 【"@ + sender + "】"@
}

/// The text of a push: the category's label in brackets, the body, and the time.
pub open spec fn push_content(body: Seq<char>, category: SmsCategory, time: Seq<char>) -> Seq<char> {
    "["@ + label_text(category) + "]\n"@ + body + "\n\n"@ + time
}

/// The push for a message from `sender` with `body` in `category` that came at
/// `timestamp`; `None` where chrono knows no such time, which never happens for a
/// time within chrono's range.
pub fn build_push_message(sender: &str, body: &str, category: &SmsCategory, timestamp: &UtcTime) -> (r:
    Option<PushMessage>)
    ensures
        match utc_format(timestamp.secs, timestamp.nanos, push_time_format()) {
            Some(time) => r matches Some(m) && m.title@ == push_title(sender@, *category)
                && m.content@ == push_content(body@, *category, time) && m.content_type@
                == "text"@ && m.url is None,
            None => r is None,
        },
        within_chrono_range(*timestamp) ==> r is Some,
{
    let fmt = "%Y-%m-%d %H:%M:%S";
    proof {
        reveal_strlit("%Y-%m-%d %H:%M:%S");
    }
    let time = match format_utc(*timestamp, fmt) {
        Some(t) => t,
        None => {
            return None;
        },
    };
    let mut title = String::from_str(category.emoji());
    title.append(" 【");
    title.append(sender);
    title.append("】");
    let mut content = String::from_str("[");
    content.append(category.label());
    content.append("]\n");
    content.append(body);
    content.append("\n\n");
    content.append(time.as_str());
    Some(PushMessage { title, content, content_type: String::from_str("text"), url: None })
}

} // verus!

verus! {

/// A push carries the whole message, whatever its length: the content is the
/// category's label line, then the body in full, then a blank line and the time;
/// and the title ends with the sender in full, in brackets.
pub proof fn law_push_carries_whole_body(
    sender: Seq<char>,
    body: Seq<char>,
    category: SmsCategory,
    time: Seq<char>,
)
    ensures
        ({
            let head = "["@ + label_text(category) + "]\n"@;
            let content = push_content(body, category, time);
            &&& content.len() == head.len() + body.len() + 2 + time.len()
            &&& content.subrange(0, head.len() as int) == head
            &&& content.subrange(head.len() as int, (head.len() + body.len()) as int) == body
            &&& content.subrange((head.len() + body.len()) as int, (head.len() + body.len() + 2) as int)
                == "\n\n"@
            &&& content.subrange(content.len() - time.len(), content.len() as int) == time
        }),
        ({
            let title = push_title(sender, category);
            let tail = " 【"@ + sender + "】"@;
            &&& title.len() == emoji_text(category).len() + tail.len()
            &&& title.subrange(emoji_text(category).len() as int, title.len() as int) == tail
        }),
{
    reveal_strlit("\n\n");
    let head = "["@ + label_text(category) + "]\n"@;
    let content = push_content(body, category, time);
    assert(content == head + body + "\n\n"@ + time);
    assert(content.subrange(0, head.len() as int) =~= head);
    assert(content.subrange(head.len() as int, (head.len() + body.len()) as int) =~= body);
    assert(content.subrange((head.len() + body.len()) as int, (head.len() + body.len() + 2) as int) =~= "\n\n"@);
    assert(content.subrange(content.len() - time.len(), content.len() as int) =~= time);
    let title = push_title(sender, category);
    let tail = " 【"@ + sender + "】"@;
    assert(title == emoji_text(category) + tail);
    assert(title.subrange(emoji_text(category).len() as int, title.len() as int) =~= tail);
}

} // verus!

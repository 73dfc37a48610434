//! The tool and resource calls: each a request under a fixed method name,
//! and what is made of its answer.

use crate::client::{id_after, Client, PendingRequest};
use crate::error::{Error, ErrorView};
use crate::json::{entries_view, json_object, json_string, object_value, string_value};
use crate::protocol::{is_request, Message};
use crate::types::{CallToolResult, ListToolsResult, MessageContent, Tool};
use vstd::prelude::*;
use vstd::string::StringExecFns;

verus! {

/// The texts of the textual segments of `content`, in order.
pub open spec fn text_segments(content: Seq<MessageContent>) -> Seq<Seq<char>>
    decreases content.len(),
{
    if content.len() == 0 {
        Seq::empty()
    } else {
        let earlier = text_segments(content.drop_last());
        match content.last() {
            MessageContent::Text { text } => earlier.push(text@),
            _ => earlier,
        }
    }
}

/// `parts` with a newline between each two neighbours.
pub open spec fn join_lines(parts: Seq<Seq<char>>) -> Seq<char>
    decreases parts.len(),
{
    if parts.len() == 0 {
        Seq::empty()
    } else if parts.len() == 1 {
        parts[0]
    } else {
        join_lines(parts.drop_last()) + "\n"@ + parts.last()
    }
}

/// The failure that stands for a tool result flagged as an error.
pub open spec fn tool_failure(name: Seq<char>, content: Seq<MessageContent>) -> ErrorView {
    ErrorView::Other(
        "Tool '"@ + name + "' execution failed: "@ + join_lines(text_segments(content)),
    )
}

/// The parameters of a `tools/call` request.
pub open spec fn call_tool_params(name: Seq<char>, arguments: serde_json::Value) -> serde_json::Value {
    object_value(seq![("name"@, string_value(name)), ("arguments"@, arguments)])
}

/// The parameters of a `resources/read` request.
pub open spec fn read_resource_params(uri: Seq<char>) -> serde_json::Value {
    object_value(seq![("uri"@, string_value(uri))])
}

/// Position in `tools` of the first tool called `name`, or the length of
/// `tools` if there is none.
pub open spec fn first_named(tools: Seq<Tool>, name: Seq<char>) -> int
    decreases tools.len(),
{
    if tools.len() == 0 || tools[0].name@ == name {
        0
    } else {
        1 + first_named(tools.skip(1), name)
    }
}

/// `first_named` is the one position before which no tool is called `name`
/// and at which, if it lies inside `tools`, one is.
pub proof fn lemma_first_named(tools: Seq<Tool>, name: Seq<char>, k: int)
    requires
        0 <= k <= tools.len(),
        forall|i: int| 0 <= i < k ==> (#[trigger] tools[i]).name@ != name,
        k < tools.len() ==> tools[k].name@ == name,
    ensures
        first_named(tools, name) == k,
    decreases k,
{
    if k > 0 {
        let rest = tools.skip(1);
        assert forall|i: int| 0 <= i < k - 1 implies (#[trigger] rest[i]).name@ != name by {
            assert(rest[i] == tools[i + 1]);
        }
        if k < tools.len() {
            assert(rest[k - 1] == tools[k]);
        }
        lemma_first_named(rest, name, k - 1);
    }
}

impl Client {
    /// Starts a `tools/list` request.
    pub fn list_tools(&mut self) -> (r: (PendingRequest, Message))
        requires
            old(self).can_issue(),
        ensures
            r.0.id == id_after(old(self).issued()),
            r.0.method@ == "tools/list"@,
            is_request(r.1, "tools/list"@, None, r.0.id),
            final(self).issued() == old(self).issued() + 1,
            final(self).cached() == old(self).cached(),
            final(self).queue() == old(self).queue(),
            final(self).pump_running() == old(self).pump_running(),
    {
        self.request("tools/list", None)
    }

    /// Starts a `tools/call` request for the tool `name` with `arguments`.
    pub fn call_tool(&mut self, name: &str, arguments: serde_json::Value) -> (r: (
        PendingRequest,
        Message,
    ))
        requires
            old(self).can_issue(),
        ensures
            r.0.id == id_after(old(self).issued()),
            r.0.method@ == "tools/call"@,
            is_request(r.1, "tools/call"@, Some(call_tool_params(name@, arguments)), r.0.id),
            final(self).issued() == old(self).issued() + 1,
            final(self).cached() == old(self).cached(),
            final(self).queue() == old(self).queue(),
            final(self).pump_running() == old(self).pump_running(),
    {
        let mut entries: Vec<(String, serde_json::Value)> = Vec::new();
        entries.push((String::from_str("name"), json_string(name)));
        entries.push((String::from_str("arguments"), arguments));
        proof {
            assert(entries_view(entries@) =~= seq![
                ("name"@, string_value(name@)),
                ("arguments"@, arguments),
            ]);
        }
        let params = json_object(entries);
        self.request("tools/call", Some(params))
    }

    /// Judges the answer to a call of the tool `name`: a result without the
    /// error flag is handed on; a flagged one becomes a failure whose text
    /// holds the result's textual segments, in order, one per line.
    pub fn complete_call_tool(name: &str, result: CallToolResult) -> (r: Result<
        CallToolResult,
        Error,
    >)
        ensures
            !result.is_error ==> r == Ok::<CallToolResult, Error>(result),
            result.is_error ==> (r matches Err(e) && e@ == tool_failure(name@, result.content@)),
    {
        if !result.is_error {
            return Ok(result);
        }
        let mut joined = String::new();
        let mut any = false;
        let mut i: usize = 0;
        while i < result.content.len()
            invariant
                i <= result.content@.len(),
                joined@ == join_lines(text_segments(result.content@.take(i as int))),
                any == (text_segments(result.content@.take(i as int)).len() > 0),
            decreases result.content@.len() - i,
        {
            proof {
                assert(result.content@.take(i + 1).drop_last() == result.content@.take(i as int));
                assert(result.content@.take(i + 1).last() == result.content@[i as int]);
            }
            match &result.content[i] {
                MessageContent::Text { text } => {
                    let ghost earlier = text_segments(result.content@.take(i as int));
                    if any {
                        joined.append("\n");
                    }
                    joined.append(text.as_str());
                    any = true;
                    proof {
                        assert(earlier.push(text@).drop_last() == earlier);
                    }
                },
                _ => {},
            }
            i += 1;
        }
        proof {
            assert(result.content@.take(i as int) == result.content@);
        }
        let text = String::from_str("Tool '").concat(name).concat("' execution failed: ").concat(
            joined.as_str(),
        );
        Err(Error::Other(text))
    }

    /// Picks the first tool called `name` out of a tool list; none is no
    /// failure.
    pub fn get_tool(listing: ListToolsResult, name: &str) -> (found: Option<Tool>)
        ensures
            found == (if first_named(listing.tools@, name@) < listing.tools@.len() {
                Some(listing.tools@[first_named(listing.tools@, name@)])
            } else {
                None
            }),
    {
        let wanted = String::from_str(name);
        let mut tools = listing.tools;
        let mut i: usize = 0;
        while i < tools.len()
            invariant
                i <= tools@.len(),
                tools@ == listing.tools@,
                wanted@ == name@,
                forall|j: int| 0 <= j < i ==> (#[trigger] tools@[j]).name@ != name@,
            decreases tools@.len() - i,
        {
            if tools[i].name == wanted {
                proof {
                    lemma_first_named(tools@, name@, i as int);
                }
                return Some(tools.remove(i));
            }
            i += 1;
        }
        proof {
            lemma_first_named(tools@, name@, i as int);
        }
        None
    }

    /// Starts a `resources/read` request for the resource at `uri`.
    pub fn read_resource(&mut self, uri: &str) -> (r: (PendingRequest, Message))
        requires
            old(self).can_issue(),
        ensures
            r.0.id == id_after(old(self).issued()),
            r.0.method@ == "resources/read"@,
            is_request(r.1, "resources/read"@, Some(read_resource_params(uri@)), r.0.id),
            final(self).issued() == old(self).issued() + 1,
            final(self).cached() == old(self).cached(),
            final(self).queue() == old(self).queue(),
            final(self).pump_running() == old(self).pump_running(),
    {
        let mut entries: Vec<(String, serde_json::Value)> = Vec::new();
        entries.push((String::from_str("uri"), json_string(uri)));
        proof {
            assert(entries_view(entries@) =~= seq![("uri"@, string_value(uri@))]);
        }
        let params = json_object(entries);
        self.request("resources/read", Some(params))
    }

    /// Starts a `resources/list` request.
    pub fn list_resources(&mut self) -> (r: (PendingRequest, Message))
        requires
            old(self).can_issue(),
        ensures
            r.0.id == id_after(old(self).issued()),
            r.0.method@ == "resources/list"@,
            is_request(r.1, "resources/list"@, None, r.0.id),
            final(self).issued() == old(self).issued() + 1,
            final(self).cached() == old(self).cached(),
            final(self).queue() == old(self).queue(),
            final(self).pump_running() == old(self).pump_running(),
    {
        self.request("resources/list", None)
    }
}

} // verus!

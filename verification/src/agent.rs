//! The agent loop controller: owns the transcript and the tool-call budget,
//! and makes every decision of the multi-turn conversation. The caller
//! performs the I/O around it — one chat exchange per turn, one tool
//! execution per handed-out call — and feeds the results back.
//!
//! The transcript invariant holds throughout: after the system and the user
//! message, the transcript is groups of one assistant message followed by
//! one tool message per answered call, each referencing the id of the call
//! it answers, in order.

use vstd::prelude::*;
use crate::chars::trim_spec;
use crate::chat::{Message, ToolCall, ToolFunctionCall};
use crate::strutil::{str_eq, str_string, trim_string};

verus! {

/// Most tool calls one run may execute.
pub const MAX_TOOL_CALLS: usize = 8;

/// The reserved placeholder a missing terminal content is compared against.
pub const NO_CONTENT_PLACEHOLDER: &'static str = "<no content>";

/// The fatal errors the controller itself raises.
pub enum AgentError {
    ToolCallLimitExceeded,
    EmptyResponse,
}

impl AgentError {
    /// The diagnostic text of the error.
    pub fn message(&self) -> (r: String)
        ensures
            *self is ToolCallLimitExceeded ==> r@ == "Tool call limit exceeded (max 8)."@,
            *self is EmptyResponse ==> r@
                == "Model returned an empty response with no tool calls."@,
    {
        match self {
            AgentError::ToolCallLimitExceeded => str_string("Tool call limit exceeded (max 8)."),
            AgentError::EmptyResponse => str_string(
                "Model returned an empty response with no tool calls.",
            ),
        }
    }
}

/// A system message: opens the transcript, carries no calls and answers none.
pub open spec fn is_system(m: Message) -> bool {
    m.role@ == "system"@ && m.tool_calls is None && m.tool_call_id is None
}

/// The user message that follows the system message.
pub open spec fn is_user(m: Message) -> bool {
    m.role@ == "user"@ && m.tool_calls is None && m.tool_call_id is None
}

/// An assistant message; it may carry tool calls, and answers none.
pub open spec fn is_assistant(m: Message) -> bool {
    m.role@ == "assistant"@ && m.tool_call_id is None
}

/// The tool message at `i` answers, in batch order, a call of the assistant
/// message at `j`, with only tool messages between the two.
pub open spec fn answers(t: Seq<Message>, j: int, i: int) -> bool {
    &&& is_assistant(t[j])
    &&& forall|k: int| j < k <= i ==> #[trigger] t[k].role@ == "tool"@
    &&& (t[j].tool_calls matches Some(cs) && i - j - 1 < cs@.len() && (
    t[i].tool_call_id matches Some(id) && id@ == cs@[i - j - 1].id@))
}

/// The message at `i` is a tool reply: its reference id equals the id of the
/// call it answers, issued by the immediately preceding assistant message.
pub open spec fn is_tool_reply(t: Seq<Message>, i: int) -> bool {
    &&& t[i].role@ == "tool"@
    &&& t[i].tool_calls is None
    &&& exists|j: int| 2 <= j < i && #[trigger] answers(t, j, i)
}

/// Position `i` holds an assistant message or a tool reply.
pub open spec fn msg_ok(t: Seq<Message>, i: int) -> bool {
    is_assistant(t[i]) || is_tool_reply(t, i)
}

/// The transcript invariant: strictly system, user, then groups of one
/// assistant message and the tool messages answering its calls.
pub open spec fn transcript_wf(t: Seq<Message>) -> bool {
    &&& t.len() >= 2
    &&& is_system(t[0])
    &&& is_user(t[1])
    &&& forall|i: int| 2 <= i < t.len() ==> #[trigger] msg_ok(t, i)
}

proof fn lemma_msg_ok_push(t: Seq<Message>, m: Message, i: int)
    requires
        2 <= i < t.len(),
        msg_ok(t, i),
    ensures
        msg_ok(t.push(m), i),
{
    let t1 = t.push(m);
    assert(t1[i] == t[i]);
    if is_tool_reply(t, i) {
        let j = choose|j: int| 2 <= j < i && #[trigger] answers(t, j, i);
        assert(t1[j] == t[j]);
        assert forall|k: int| j < k <= i implies #[trigger] t1[k].role@ == "tool"@ by {
            assert(t1[k] == t[k]);
        }
        assert(answers(t1, j, i));
    }
}

/// The number of tool messages in a transcript.
pub open spec fn count_tool_msgs(t: Seq<Message>) -> int
    decreases t.len(),
{
    if t.len() == 0 {
        0
    } else {
        count_tool_msgs(t.drop_last()) + (if t.last().role@ == "tool"@ {
            1int
        } else {
            0int
        })
    }
}

proof fn lemma_count_push(t: Seq<Message>, m: Message)
    ensures
        count_tool_msgs(t.push(m)) == count_tool_msgs(t) + (if m.role@ == "tool"@ {
            1int
        } else {
            0int
        }),
{
    assert(t.push(m).drop_last() =~= t);
    assert(t.push(m).last() == m);
}

/// The controller's state: the transcript, the budget counter, and the
/// bookkeeping of the batch of tool calls being processed. The fields are
/// readable by anyone; the methods keep `wf()`.
pub struct AgentState {
    pub transcript: Vec<Message>,
    pub tool_calls_used: usize,
    pub batch: Vec<ToolCall>,
    pub next_call: usize,
    pub in_flight: bool,
}

impl AgentState {
    /// Tool messages already appended for the current batch.
    pub open spec fn answered(&self) -> int {
        self.next_call - (if self.in_flight {
            1int
        } else {
            0int
        })
    }

    /// No call of the current batch is outstanding: the next assistant
    /// message may come.
    pub open spec fn ready(&self) -> bool {
        !self.in_flight && self.next_call == self.batch@.len()
    }

    /// The batch's assistant message sits just above its answered calls'
    /// tool messages at the end of the transcript, and carries the batch.
    pub open spec fn batch_linked(&self) -> bool {
        let t = self.transcript@;
        let a = self.answered();
        &&& 0 <= a
        &&& a + 3 <= t.len()
        &&& is_assistant(t[t.len() - 1 - a])
        &&& (t[t.len() - 1 - a].tool_calls matches Some(cs) && cs@ == self.batch@)
        &&& forall|p: int| 0 <= p < a ==> #[trigger] t[t.len() - a + p].role@ == "tool"@
    }

    /// Well-formedness: the transcript invariant, the budget bound, and the
    /// link between the batch bookkeeping and the transcript's tail.
    pub open spec fn wf(&self) -> bool {
        &&& transcript_wf(self.transcript@)
        &&& self.tool_calls_used <= MAX_TOOL_CALLS + 1
        &&& self.next_call <= self.batch@.len()
        &&& (self.in_flight ==> self.next_call >= 1)
        &&& (self.batch@.len() == 0 ==> self.next_call == 0 && !self.in_flight)
        &&& (self.batch@.len() > 0 ==> self.batch_linked())
    }

    /// Starts a run: the transcript holds the system and the user message.
    pub fn new(system_prompt: String, user_prompt: String) -> (s: AgentState)
        ensures
            s.wf(),
            s.ready(),
            s.tool_calls_used == 0,
            s.batch@.len() == 0,
            s.transcript@.len() == 2,
            s.transcript@[0].role@ == "system"@,
            (s.transcript@[0].content matches Some(c) && c@ == system_prompt@),
            s.transcript@[1].role@ == "user"@,
            (s.transcript@[1].content matches Some(c) && c@ == user_prompt@),
            count_tool_msgs(s.transcript@) == 0,
    {
        let mut transcript: Vec<Message> = Vec::new();
        transcript.push(
            Message {
                role: str_string("system"),
                content: Some(system_prompt),
                tool_calls: None,
                tool_call_id: None,
            },
        );
        transcript.push(
            Message {
                role: str_string("user"),
                content: Some(user_prompt),
                tool_calls: None,
                tool_call_id: None,
            },
        );
        let s = AgentState {
            transcript,
            tool_calls_used: 0,
            batch: Vec::new(),
            next_call: 0,
            in_flight: false,
        };
        proof {
            reveal_strlit("system");
            reveal_strlit("user");
            reveal_strlit("tool");
            let t = s.transcript@;
            assert(t.last() == t[1]);
            assert(t.drop_last().last() == t[0]);
            assert(t.drop_last().drop_last() =~= Seq::<Message>::empty());
            assert("user"@[0] == 'u' && "tool"@[0] == 't' && "system"@[0] == 's');
            assert(t[1].role@ != "tool"@);
            assert(t[0].role@ != "tool"@);
            assert(count_tool_msgs(t.drop_last().drop_last()) == 0);
            assert(count_tool_msgs(t.drop_last()) == 0);
            assert(count_tool_msgs(t) == 0);
        }
        s
    }
}

/// What the controller decides on one assistant message: run its tool calls,
/// finish with its text, or fail the run.
pub enum Decision {
    RunTools,
    Finish(String),
    Fail(AgentError),
}

/// The content the empty-response check sees: the message's text, or the
/// reserved placeholder when there is none.
pub open spec fn content_text(content: Option<String>) -> Seq<char> {
    match content {
        Some(c) => c@,
        None => NO_CONTENT_PLACEHOLDER@,
    }
}

/// A terminal reply is accepted when its trimmed text is non-empty and the
/// raw text is not the reserved placeholder.
pub open spec fn terminal_ok(content: Option<String>) -> bool {
    trim_spec(content_text(content)).len() > 0 && content_text(content)
        != NO_CONTENT_PLACEHOLDER@
}

fn clone_opt_string(s: &Option<String>) -> (r: Option<String>)
    ensures
        r == *s,
{
    match s {
        Some(x) => Some(x.clone()),
        None => None,
    }
}

fn clone_tool_call(c: &ToolCall) -> (r: ToolCall)
    ensures
        r == *c,
{
    ToolCall {
        id: c.id.clone(),
        tool_type: c.tool_type.clone(),
        function: ToolFunctionCall {
            name: c.function.name.clone(),
            arguments: c.function.arguments.clone(),
        },
    }
}

fn clone_tool_calls(v: &Vec<ToolCall>) -> (r: Vec<ToolCall>)
    ensures
        r@ == v@,
{
    let mut out: Vec<ToolCall> = Vec::new();
    let mut i: usize = 0;
    while i < v.len()
        invariant
            0 <= i <= v@.len(),
            out@ =~= v@.take(i as int),
        decreases v@.len() - i,
    {
        out.push(clone_tool_call(&v[i]));
        proof {
            assert(out@ =~= v@.take(i + 1));
        }
        i = i + 1;
    }
    proof {
        assert(v@.take(v@.len() as int) =~= v@);
    }
    out
}

impl AgentState {
    /// Takes the next assistant message (the content and tool calls of the
    /// consumed first choice), appends it to the transcript, and decides:
    /// run its calls, finish with its trimmed text, or fail on an empty or
    /// placeholder reply.
    pub fn accept_assistant(&mut self, content: Option<String>, tool_calls: Option<Vec<ToolCall>>)
        -> (d: Decision)
        requires
            old(self).wf(),
            old(self).ready(),
        ensures
            final(self).wf(),
            final(self).tool_calls_used == old(self).tool_calls_used,
            final(self).transcript@.len() == old(self).transcript@.len() + 1,
            final(self).transcript@.drop_last() == old(self).transcript@,
            ({
                let m = final(self).transcript@.last();
                m.role@ == "assistant"@ && m.content == content && m.tool_calls == tool_calls
                    && m.tool_call_id is None
            }),
            count_tool_msgs(final(self).transcript@) == count_tool_msgs(old(self).transcript@),
            tool_calls matches Some(cs) ==> (d is RunTools && final(self).batch@ == cs@ && final(self).next_call == 0 && !final(self).in_flight),
            tool_calls is None ==> final(self).ready() && final(self).batch@.len() == 0,
            tool_calls is None && terminal_ok(content) ==> (d matches Decision::Finish(out)
                && out@ == trim_spec(content_text(content))),
            tool_calls is None && !terminal_ok(content) ==> (d matches Decision::Fail(e)
                && e is EmptyResponse),
    {
        proof {
            reveal_strlit("assistant");
            reveal_strlit("tool");
            assert("assistant"@.len() == 9 && "tool"@.len() == 4);
        }
        let ghost t0 = self.transcript@;
        match tool_calls {
            Some(cs) => {
                let batch = clone_tool_calls(&cs);
                let m = Message {
                    role: str_string("assistant"),
                    content,
                    tool_calls: Some(cs),
                    tool_call_id: None,
                };
                self.transcript.push(m);
                self.batch = batch;
                self.next_call = 0;
                self.in_flight = false;
                proof {
                    let t1 = self.transcript@;
                    assert(t1.drop_last() =~= t0);
                    assert(t1 =~= t0.push(t1.last()));
                    lemma_count_push(t0, t1.last());
                    assert forall|i: int| 2 <= i < t1.len() implies #[trigger] msg_ok(t1, i) by {
                        if i < t0.len() {
                            lemma_msg_ok_push(t0, t1.last(), i);
                        } else {
                            assert(is_assistant(t1[i]));
                        }
                    }
                    assert(t1[0] == t0[0]);
                    assert(t1[1] == t0[1]);
                    assert(self.answered() == 0);
                    assert(is_assistant(t1[t1.len() - 1]));
                }
                Decision::RunTools
            },
            None => {
                let kept = clone_opt_string(&content);
                let m = Message {
                    role: str_string("assistant"),
                    content: kept,
                    tool_calls: None,
                    tool_call_id: None,
                };
                self.transcript.push(m);
                self.batch = Vec::new();
                self.next_call = 0;
                self.in_flight = false;
                proof {
                    let t1 = self.transcript@;
                    assert(t1.drop_last() =~= t0);
                    assert(t1 =~= t0.push(t1.last()));
                    lemma_count_push(t0, t1.last());
                    assert forall|i: int| 2 <= i < t1.len() implies #[trigger] msg_ok(t1, i) by {
                        if i < t0.len() {
                            lemma_msg_ok_push(t0, t1.last(), i);
                        } else {
                            assert(is_assistant(t1[i]));
                        }
                    }
                    assert(t1[0] == t0[0]);
                    assert(t1[1] == t0[1]);
                }
                let text: String = match content {
                    Some(c) => c,
                    None => str_string(NO_CONTENT_PLACEHOLDER),
                };
                let trimmed = trim_string(text.as_str());
                let is_placeholder = str_eq(text.as_str(), NO_CONTENT_PLACEHOLDER);
                if trimmed.as_str().is_empty() || is_placeholder {
                    Decision::Fail(AgentError::EmptyResponse)
                } else {
                    Decision::Finish(trimmed)
                }
            },
        }
    }

    /// Starts the next tool call of the batch: raises the budget counter and
    /// fails the run the moment it would pass the ceiling; otherwise hands
    /// out the call to execute.
    pub fn begin_call(&mut self) -> (r: Result<ToolCall, AgentError>)
        requires
            old(self).wf(),
            !old(self).in_flight,
            old(self).next_call < old(self).batch@.len(),
            old(self).tool_calls_used <= MAX_TOOL_CALLS,
        ensures
            final(self).wf(),
            final(self).transcript@ == old(self).transcript@,
            final(self).batch@ == old(self).batch@,
            final(self).tool_calls_used == old(self).tool_calls_used + 1,
            old(self).tool_calls_used + 1 > MAX_TOOL_CALLS ==> (r matches Err(e)
                && e is ToolCallLimitExceeded && final(self).next_call == old(self).next_call
                && !final(self).in_flight),
            old(self).tool_calls_used + 1 <= MAX_TOOL_CALLS ==> (r matches Ok(c) && c == old(self).batch@[old(self).next_call as int] && final(self).next_call == old(self).next_call
                + 1 && final(self).in_flight),
    {
        let batch_len = self.batch.len();
        self.tool_calls_used = self.tool_calls_used + 1;
        if self.tool_calls_used > MAX_TOOL_CALLS {
            return Err(AgentError::ToolCallLimitExceeded);
        }
        let c = clone_tool_call(&self.batch[self.next_call]);
        self.next_call = self.next_call + 1;
        self.in_flight = true;
        proof {
            assert(self.answered() == old(self).next_call);
            assert(self.batch_linked());
            assert(self.wf());
        }
        Ok(c)
    }

    /// Appends the tool message answering the call in flight: role `tool`,
    /// the tool's output as content, and the reference id of that call.
    pub fn finish_call(&mut self, output: String)
        requires
            old(self).wf(),
            old(self).in_flight,
        ensures
            final(self).wf(),
            !final(self).in_flight,
            final(self).tool_calls_used == old(self).tool_calls_used,
            final(self).batch@ == old(self).batch@,
            final(self).next_call == old(self).next_call,
            final(self).transcript@.len() == old(self).transcript@.len() + 1,
            final(self).transcript@.drop_last() == old(self).transcript@,
            ({
                let m = final(self).transcript@.last();
                m.role@ == "tool"@ && (m.content matches Some(c) && c@ == output@)
                    && m.tool_calls is None && (m.tool_call_id matches Some(id) && id@ == old(self).batch@[old(self).next_call - 1].id@)
            }),
            count_tool_msgs(final(self).transcript@) == count_tool_msgs(old(self).transcript@)
                + 1,
    {
        proof {
            reveal_strlit("tool");
        }
        let ghost t0 = self.transcript@;
        let ghost a = self.answered();
        let ghost jj = t0.len() - 1 - a;
        let id = self.batch[self.next_call - 1].id.clone();
        let m = Message {
            role: str_string("tool"),
            content: Some(output),
            tool_calls: None,
            tool_call_id: Some(id),
        };
        self.transcript.push(m);
        self.in_flight = false;
        proof {
            let t1 = self.transcript@;
            assert(t1.drop_last() =~= t0);
            assert(t1 =~= t0.push(t1.last()));
            lemma_count_push(t0, t1.last());
            // The new message answers call `a` of the assistant at `jj`.
            assert(is_assistant(t1[jj]));
            assert forall|k: int| jj < k <= t1.len() - 1 implies #[trigger] t1[k].role@
                == "tool"@ by {
                if k < t1.len() - 1 {
                    assert(t1[k] == t0[k]);
                    assert(t0[t0.len() - a + (k - (jj + 1))].role@ == "tool"@);
                }
            }
            assert(answers(t1, jj, t1.len() - 1));
            assert(is_tool_reply(t1, t1.len() - 1));
            assert forall|i: int| 2 <= i < t1.len() implies #[trigger] msg_ok(t1, i) by {
                if i < t0.len() {
                    lemma_msg_ok_push(t0, t1.last(), i);
                }
            }
            assert(t1[0] == t0[0]);
            assert(t1[1] == t0[1]);
            // The batch link with one more call answered.
            let a1 = self.answered();
            assert(a1 == a + 1);
            assert(t1[t1.len() - 1 - a1] == t0[t0.len() - 1 - a]);
            assert forall|p: int| 0 <= p < a1 implies #[trigger] t1[t1.len() - a1 + p].role@
                == "tool"@ by {
                if p < a {
                    assert(t1[t1.len() - a1 + p] == t0[t0.len() - a + p]);
                } else {
                    assert(t1.len() - a1 + p == t1.len() - 1);
                }
            }
        }
    }
}


/// How a scripted run ends.
pub enum RunResult {
    Done(String),
    Failed(AgentError),
    OutOfScript,
}

/// Spec-level outcome of a run.
pub enum ScriptOutcome {
    Done(Seq<char>),
    Budget,
    Empty,
    Short,
}

/// The outcome a run result stands for.
pub open spec fn run_result_view(r: RunResult) -> ScriptOutcome {
    match r {
        RunResult::Done(s) => ScriptOutcome::Done(s@),
        RunResult::Failed(e) => match e {
            AgentError::ToolCallLimitExceeded => ScriptOutcome::Budget,
            AgentError::EmptyResponse => ScriptOutcome::Empty,
        },
        RunResult::OutOfScript => ScriptOutcome::Short,
    }
}

/// The number of calls an assistant message carries.
pub open spec fn calls_of(m: Message) -> int {
    match m.tool_calls {
        Some(cs) => cs@.len() as int,
        None => 0,
    }
}

/// The outcome, and the number of tool calls executed, of a run driven by a
/// fixed script of assistant messages, starting at message `k` with the
/// budget counter at `used`: each batch executes its calls while the counter
/// stays within the ceiling and fails the run the moment it would pass it; a
/// content reply ends the run by the empty-response rule.
pub open spec fn script_model(responses: Seq<Message>, k: int, used: int) -> (ScriptOutcome, int)
    decreases responses.len() - k,
{
    if !(0 <= k < responses.len()) {
        (ScriptOutcome::Short, 0)
    } else {
        let m = responses[k];
        match m.tool_calls {
            Some(cs) => if used + cs@.len() <= MAX_TOOL_CALLS {
                let rec = script_model(responses, k + 1, used + cs@.len());
                (rec.0, cs@.len() + rec.1)
            } else {
                (ScriptOutcome::Budget, MAX_TOOL_CALLS - used)
            },
            None => if terminal_ok(m.content) {
                (ScriptOutcome::Done(trim_spec(content_text(m.content))), 0)
            } else {
                (ScriptOutcome::Empty, 0)
            },
        }
    }
}

/// Drives the controller against a fixed script of assistant replies, as a
/// stubbed chat API would return them, answering the `e`-th executed call
/// with `tool_outputs[e]` (or empty text past that list's end). The outcome
/// and the number of tool messages appended are exactly the model's.
pub fn run_scripted(
    state: &mut AgentState,
    responses: &Vec<Message>,
    tool_outputs: &Vec<String>,
) -> (r: RunResult)
    requires
        old(state).wf(),
        old(state).ready(),
        old(state).tool_calls_used <= MAX_TOOL_CALLS,
    ensures
        final(state).wf(),
        run_result_view(r) == script_model(
            responses@,
            0,
            old(state).tool_calls_used as int,
        ).0,
        count_tool_msgs(final(state).transcript@) == count_tool_msgs(old(state).transcript@)
            + script_model(responses@, 0, old(state).tool_calls_used as int).1,
{
    let ghost used0 = old(state).tool_calls_used as int;
    let ghost count0 = count_tool_msgs(old(state).transcript@);
    let ghost model = script_model(responses@, 0, used0);
    let n = responses.len();
    let mut k: usize = 0;
    let mut execs: usize = 0;
    while k < n
        invariant
            0 <= k <= n,
            n == responses@.len(),
            state.wf(),
            state.ready(),
            state.tool_calls_used <= MAX_TOOL_CALLS,
            execs == state.tool_calls_used - used0,
            used0 == old(state).tool_calls_used as int,
            count0 == count_tool_msgs(old(state).transcript@),
            0 <= used0 <= state.tool_calls_used,
            model == script_model(responses@, 0, used0),
            model.0 == script_model(responses@, k as int, state.tool_calls_used as int).0,
            model.1 == execs + script_model(responses@, k as int, state.tool_calls_used as int).1,
            count_tool_msgs(state.transcript@) == count0 + execs,
        decreases n - k,
    {
        let m = &responses[k];
        let content = clone_opt_string(&m.content);
        let tool_calls: Option<Vec<ToolCall>> = match &m.tool_calls {
            Some(cs) => Some(clone_tool_calls(cs)),
            None => None,
        };
        let ghost used_entry = state.tool_calls_used as int;
        let ghost execs_entry = execs as int;
        proof {
            assert(content == responses@[k as int].content);
            match responses@[k as int].tool_calls {
                Some(cs) => {
                    assert(tool_calls matches Some(cs2) && cs2@ == cs@);
                },
                None => {
                    assert(tool_calls is None);
                },
            }
        }
        let d = state.accept_assistant(content, tool_calls);
        match d {
            Decision::RunTools => {
                let ghost b = state.batch@.len() as int;
                proof {
                    assert(responses@[k as int].tool_calls matches Some(cs) && cs@.len() == b);
                }
                while state.next_call < state.batch.len()
                    invariant
                        state.wf(),
                        !state.in_flight,
                        b == state.batch@.len(),
                        0 <= state.next_call <= b,
                        state.tool_calls_used == used_entry + state.next_call,
                        state.tool_calls_used <= MAX_TOOL_CALLS,
                        used0 == old(state).tool_calls_used as int,
                        count0 == count_tool_msgs(old(state).transcript@),
                        model == script_model(responses@, 0, used0),
                        0 <= used0 <= used_entry,
                        execs == state.tool_calls_used - used0,
                        execs == execs_entry + state.next_call,
                        execs <= MAX_TOOL_CALLS,
                        count_tool_msgs(state.transcript@) == count0 + execs,
                        0 <= k < responses@.len(),
                        (responses@[k as int].tool_calls matches Some(cs) && cs@.len() == b),
                        model == script_model(responses@, 0, used0),
                        model.0 == script_model(responses@, k as int, used_entry).0,
                        model.1 == execs_entry + script_model(responses@, k as int, used_entry).1,
                    decreases b - state.next_call,
                {
                    match state.begin_call() {
                        Err(e) => {
                            proof {
                                assert(used_entry + b > MAX_TOOL_CALLS);
                                assert(script_model(responses@, k as int, used_entry) == (
                                    ScriptOutcome::Budget,
                                    MAX_TOOL_CALLS - used_entry,
                                ));
                                assert(execs == execs_entry + (MAX_TOOL_CALLS - used_entry));
                                assert(e is ToolCallLimitExceeded);
                            }
                            return RunResult::Failed(e);
                        },
                        Ok(_c) => {
                            let output: String = if execs < tool_outputs.len() {
                                tool_outputs[execs].clone()
                            } else {
                                String::new()
                            };
                            state.finish_call(output);
                            execs = execs + 1;
                        },
                    }
                }
                proof {
                    assert(used_entry + b <= MAX_TOOL_CALLS);
                    assert(state.tool_calls_used == used_entry + b);
                    assert(script_model(responses@, k as int, used_entry) == (
                        script_model(responses@, k + 1, used_entry + b).0,
                        b + script_model(responses@, k + 1, used_entry + b).1,
                    ));
                }
            },
            Decision::Finish(s) => {
                proof {
                    assert(responses@[k as int].tool_calls is None);
                    assert(terminal_ok(responses@[k as int].content));
                    assert(script_model(responses@, k as int, used_entry) == (
                        ScriptOutcome::Done(
                            trim_spec(content_text(responses@[k as int].content)),
                        ),
                        0int,
                    ));
                }
                return RunResult::Done(s);
            },
            Decision::Fail(e) => {
                proof {
                    assert(responses@[k as int].tool_calls is None);
                    assert(!terminal_ok(responses@[k as int].content));
                    assert(script_model(responses@, k as int, used_entry) == (
                        ScriptOutcome::Empty,
                        0int,
                    ));
                    assert(e is EmptyResponse);
                }
                return RunResult::Failed(e);
            },
        }
        k = k + 1;
    }
    RunResult::OutOfScript
}

/// Against a scripted chat API returning `n` single-call tool responses and
/// then an accepted content reply, a fresh run executes `n` calls and
/// finishes with the trimmed content when `n` is within the call budget;
/// past it, the run fails on the budget with exactly `MAX_TOOL_CALLS`
/// executions performed.
pub proof fn lemma_budget_ceiling(responses: Seq<Message>, n: int)
    requires
        0 <= n < responses.len(),
        forall|k: int|
            0 <= k < n ==> (#[trigger] responses[k].tool_calls matches Some(cs) && cs@.len()
                == 1),
        responses[n].tool_calls is None,
        terminal_ok(responses[n].content),
    ensures
        n <= MAX_TOOL_CALLS ==> script_model(responses, 0, 0) == (
            ScriptOutcome::Done(trim_spec(content_text(responses[n].content))),
            n,
        ),
        n > MAX_TOOL_CALLS ==> script_model(responses, 0, 0) == (
            ScriptOutcome::Budget,
            MAX_TOOL_CALLS as int,
        ),
{
    lemma_budget_ceiling_from(responses, n, 0);
}

proof fn lemma_budget_ceiling_from(responses: Seq<Message>, n: int, k: int)
    requires
        0 <= k <= n < responses.len(),
        forall|q: int|
            0 <= q < n ==> (#[trigger] responses[q].tool_calls matches Some(cs) && cs@.len()
                == 1),
        responses[n].tool_calls is None,
        terminal_ok(responses[n].content),
    ensures
        n <= MAX_TOOL_CALLS ==> script_model(responses, k, k) == (
            ScriptOutcome::Done(trim_spec(content_text(responses[n].content))),
            n - k,
        ),
        n > MAX_TOOL_CALLS && k <= MAX_TOOL_CALLS ==> script_model(responses, k, k) == (
            ScriptOutcome::Budget,
            MAX_TOOL_CALLS - k,
        ),
    decreases n - k,
{
    if k < n {
        if k + 1 <= MAX_TOOL_CALLS {
            lemma_budget_ceiling_from(responses, n, k + 1);
        }
    }
}

} // verus!

//! The chat-API data shapes the controller works with, and the normalization
//! of irregular upstream responses into a single fatal-error text.

use vstd::prelude::*;
use crate::strutil::{append_str, chars_string, str_string};

verus! {

/// One message of the transcript.
pub struct Message {
    pub role: String,
    pub content: Option<String>,
    pub tool_calls: Option<Vec<ToolCall>>,
    pub tool_call_id: Option<String>,
}

/// One structured tool call issued by the model.
pub struct ToolCall {
    pub id: String,
    pub tool_type: String,
    pub function: ToolFunctionCall,
}

/// The function part of a tool call: the tool's name and its argument blob.
pub struct ToolFunctionCall {
    pub name: String,
    pub arguments: String,
}

/// A successful chat response.
pub struct ChatResponse {
    pub id: String,
    pub object: String,
    pub created: u64,
    pub model: String,
    pub choices: Vec<Choice>,
    pub usage: Usage,
}

/// One choice of a chat response; only the first is ever consumed.
pub struct Choice {
    pub index: u32,
    pub message: Message,
    pub finish_reason: String,
}

/// Token accounting of one exchange.
pub struct Usage {
    pub prompt_tokens: u32,
    pub completion_tokens: u32,
    pub total_tokens: u32,
}

/// What the caller read out of the first choice of a raw response body, for
/// the irregularity checks: the finish reason, whether content and tool calls
/// are present and non-null, any embedded error object rendered as text, and
/// the rendered choice itself as the fallback diagnostic.
pub struct ChoiceScan {
    pub finish_reason: Option<String>,
    pub has_content: bool,
    pub has_tool_calls: bool,
    pub error_text: Option<String>,
    pub rendered: String,
}

/// What the caller read out of a raw response body: a top-level error object
/// rendered as text, if one is there, and the scan of the first choice, if
/// there is one.
pub struct ResponseScan {
    pub top_error: Option<String>,
    pub first_choice: Option<ChoiceScan>,
}

/// Whether the first choice is irregular: the model signalled an error, or
/// the message carries neither content nor tool calls.
pub open spec fn choice_irregular(c: ChoiceScan) -> bool {
    (match c.finish_reason {
        Some(fr) => fr@ == "error"@,
        None => false,
    }) || (!c.has_content && !c.has_tool_calls)
}

/// The fatal-error text a scanned response is normalized to, if any: a
/// top-level error object wins; otherwise an irregular first choice yields
/// its embedded error text, or a diagnostic naming the finish reason.
pub open spec fn fatal_text_spec(scan: ResponseScan) -> Option<Seq<char>> {
    match scan.top_error {
        Some(e) => Some("OpenAI API error: "@ + e@),
        None => match scan.first_choice {
            Some(c) => if choice_irregular(c) {
                match c.error_text {
                    Some(e) => Some("OpenAI API error: "@ + e@),
                    None => Some(
                        "OpenAI API error: finish_reason="@ + (match c.finish_reason {
                            Some(fr) => fr@,
                            None => "unknown"@,
                        }) + " response="@ + c.rendered@,
                    ),
                }
            } else {
                None
            },
            None => None,
        },
    }
}

/// Normalizes a scanned response: accepts a regular one, and turns every
/// irregular shape into its single fatal-error text.
pub fn normalize_response(scan: &ResponseScan) -> (r: Result<(), String>)
    ensures
        r is Ok <==> fatal_text_spec(*scan) is None,
        r matches Err(m) ==> fatal_text_spec(*scan) matches Some(t) && m@ == t,
{
    if let Some(e) = &scan.top_error {
        let mut out: Vec<char> = Vec::new();
        append_str(&mut out, "OpenAI API error: ");
        append_str(&mut out, e.as_str());
        proof {
            assert(out@ =~= "OpenAI API error: "@ + e@);
        }
        return Err(chars_string(&out));
    }
    if let Some(c) = &scan.first_choice {
        let reason_error = match &c.finish_reason {
            Some(fr) => crate::strutil::str_eq(fr.as_str(), "error"),
            None => false,
        };
        if reason_error || (!c.has_content && !c.has_tool_calls) {
            if let Some(e) = &c.error_text {
                let mut out: Vec<char> = Vec::new();
                append_str(&mut out, "OpenAI API error: ");
                append_str(&mut out, e.as_str());
                proof {
                    assert(out@ =~= "OpenAI API error: "@ + e@);
                }
                return Err(chars_string(&out));
            }
            let mut out: Vec<char> = Vec::new();
            append_str(&mut out, "OpenAI API error: finish_reason=");
            match &c.finish_reason {
                Some(fr) => append_str(&mut out, fr.as_str()),
                None => append_str(&mut out, "unknown"),
            }
            append_str(&mut out, " response=");
            append_str(&mut out, c.rendered.as_str());
            proof {
                assert(out@ =~= "OpenAI API error: finish_reason="@ + (match c.finish_reason {
                    Some(fr) => fr@,
                    None => "unknown"@,
                }) + " response="@ + c.rendered@);
            }
            return Err(chars_string(&out));
        }
    }
    Ok(())
}

/// Rejects a decoded response with no choices at all; every accepted response
/// has a first choice to consume.
pub fn check_choices(resp: &ChatResponse) -> (r: Result<(), String>)
    ensures
        r is Ok <==> resp.choices@.len() > 0,
        r matches Err(m) ==> m@ == "OpenAI API error: empty choices array"@,
{
    if resp.choices.len() == 0 {
        Err(str_string("OpenAI API error: empty choices array"))
    } else {
        Ok(())
    }
}

} // verus!

//! The names of members in JSON, told apart by their lengths and letters.

use vstd::prelude::*;

verus! {

/// The types of the events of a response, told apart.
pub proof fn events()
    ensures
        "error"@.len() == 5,
        "keepalive"@.len() == 9,
        "response.failed"@.len() == 15 && "response.failed"@[9] == 'f',
        "response.queued"@.len() == 15 && "response.queued"@[9] == 'q',
        "response.created"@.len() == 16,
        "response.metadata"@.len() == 17,
        "response.completed"@.len() == 18,
        "response.incomplete"@.len() == 19,
        "response.in_progress"@.len() == 20,
        "response.refusal.done"@.len() == 21,
        "response.refusal.delta"@.len() == 22,
        "response.output_item.done"@.len() == 25 && "response.output_item.done"@[16] == 'i',
        "response.output_text.done"@.len() == 25 && "response.output_text.done"@[16] == 't',
        "response.content_part.done"@.len() == 26 && "response.content_part.done"@[16] == '_',
        "response.output_item.added"@.len() == 26 && "response.output_item.added"@[16] == 'i',
        "response.output_text.delta"@.len() == 26 && "response.output_text.delta"@[16] == 't',
        "response.content_part.added"@.len() == 27,
        "response.custom_tool_call_input.done"@.len() == 36 && "response.custom_tool_call_input.done"@[27] == 'n',
        "response.reasoning_summary_part.done"@.len() == 36 && "response.reasoning_summary_part.done"@[27] == 'p',
        "response.reasoning_summary_text.done"@.len() == 36 && "response.reasoning_summary_text.done"@[27] == 't',
        "response.custom_tool_call_input.delta"@.len() == 37 && "response.custom_tool_call_input.delta"@[27] == 'n',
        "response.function_call_arguments.done"@.len() == 37 && "response.function_call_arguments.done"@[27] == 'm',
        "response.reasoning_summary_part.added"@.len() == 37 && "response.reasoning_summary_part.added"@[27] == 'p',
        "response.reasoning_summary_text.delta"@.len() == 37 && "response.reasoning_summary_text.delta"@[27] == 't',
        "response.function_call_arguments.delta"@.len() == 38,
{
    reveal_strlit("error");
    reveal_strlit("keepalive");
    reveal_strlit("response.failed");
    reveal_strlit("response.queued");
    reveal_strlit("response.created");
    reveal_strlit("response.metadata");
    reveal_strlit("response.completed");
    reveal_strlit("response.incomplete");
    reveal_strlit("response.in_progress");
    reveal_strlit("response.refusal.done");
    reveal_strlit("response.refusal.delta");
    reveal_strlit("response.output_item.done");
    reveal_strlit("response.output_text.done");
    reveal_strlit("response.content_part.done");
    reveal_strlit("response.output_item.added");
    reveal_strlit("response.output_text.delta");
    reveal_strlit("response.content_part.added");
    reveal_strlit("response.custom_tool_call_input.done");
    reveal_strlit("response.reasoning_summary_part.done");
    reveal_strlit("response.reasoning_summary_text.done");
    reveal_strlit("response.custom_tool_call_input.delta");
    reveal_strlit("response.function_call_arguments.done");
    reveal_strlit("response.reasoning_summary_part.added");
    reveal_strlit("response.reasoning_summary_text.delta");
    reveal_strlit("response.function_call_arguments.delta");
}

/// The names in Responses events, told apart.
pub proof fn responses()
    ensures
        "id"@.len() == 2,
        "item"@.len() == 4 && "item"@[2] == 'e',
        "name"@.len() == 4 && "name"@[2] == 'm',
        "part"@.len() == 4 && "part"@[2] == 'r',
        "role"@.len() == 4 && "role"@[2] == 'l',
        "text"@.len() == 4 && "text"@[2] == 'x',
        "type"@.len() == 4 && "type"@[2] == 'p',
        "delta"@.len() == 5 && "delta"@[0] == 'd',
        "error"@.len() == 5 && "error"@[0] == 'e',
        "input"@.len() == 5 && "input"@[0] == 'i',
        "model"@.len() == 5 && "model"@[0] == 'm',
        "usage"@.len() == 5 && "usage"@[0] == 'u',
        "failed"@.len() == 6 && "failed"@[3] == 'l',
        "object"@.len() == 6 && "object"@[3] == 'e',
        "output"@.len() == 6 && "output"@[3] == 'p',
        "queued"@.len() == 6 && "queued"@[3] == 'u',
        "reason"@.len() == 6 && "reason"@[3] == 's',
        "status"@.len() == 6 && "status"@[3] == 't',
        "call_id"@.len() == 7 && "call_id"@[2] == 'l',
        "content"@.len() == 7 && "content"@[2] == 'n',
        "item_id"@.len() == 7 && "item_id"@[2] == 'e',
        "message"@.len() == 7 && "message"@[2] == 's',
        "refusal"@.len() == 7 && "refusal"@[2] == 'f',
        "summary"@.len() == 7 && "summary"@[2] == 'm',
        "logprobs"@.len() == 8 && "logprobs"@[0] == 'l',
        "response"@.len() == 8 && "response"@[0] == 'r',
        "arguments"@.len() == 9 && "arguments"@[1] == 'r',
        "assistant"@.len() == 9 && "assistant"@[1] == 's',
        "auxiliary"@.len() == 9 && "auxiliary"@[1] == 'u',
        "completed"@.len() == 9 && "completed"@[1] == 'o',
        "reasoning"@.len() == 9 && "reasoning"@[1] == 'e',
        "created_at"@.len() == 10 && "created_at"@[0] == 'c',
        "incomplete"@.len() == 10 && "incomplete"@[0] == 'i',
        "annotations"@.len() == 11 && "annotations"@[0] == 'a',
        "in_progress"@.len() == 11 && "in_progress"@[0] == 'i',
        "output_text"@.len() == 11 && "output_text"@[0] == 'o',
        "response_id"@.len() == 11 && "response_id"@[0] == 'r',
        "input_tokens"@.len() == 12 && "input_tokens"@[0] == 'i',
        "output_index"@.len() == 12 && "output_index"@[0] == 'o',
        "summary_text"@.len() == 12 && "summary_text"@[0] == 's',
        "total_tokens"@.len() == 12 && "total_tokens"@[0] == 't',
        "cached_tokens"@.len() == 13 && "cached_tokens"@[3] == 'h',
        "content_index"@.len() == 13 && "content_index"@[3] == 't',
        "function_call"@.len() == 13 && "function_call"@[3] == 'c',
        "output_tokens"@.len() == 13 && "output_tokens"@[3] == 'p',
        "summary_index"@.len() == 13 && "summary_index"@[3] == 'm',
        "sequence_number"@.len() == 15,
        "custom_tool_call"@.len() == 16 && "custom_tool_call"@[0] == 'c',
        "reasoning_tokens"@.len() == 16 && "reasoning_tokens"@[0] == 'r',
        "max_output_tokens"@.len() == 17,
        "incomplete_details"@.len() == 18 && "incomplete_details"@[0] == 'i',
        "response.completed"@.len() == 18 && "response.completed"@[0] == 'r',
        "input_tokens_details"@.len() == 20,
        "output_tokens_details"@.len() == 21,
{
    reveal_strlit("id");
    reveal_strlit("item");
    reveal_strlit("name");
    reveal_strlit("part");
    reveal_strlit("role");
    reveal_strlit("text");
    reveal_strlit("type");
    reveal_strlit("delta");
    reveal_strlit("error");
    reveal_strlit("input");
    reveal_strlit("model");
    reveal_strlit("usage");
    reveal_strlit("failed");
    reveal_strlit("object");
    reveal_strlit("output");
    reveal_strlit("queued");
    reveal_strlit("reason");
    reveal_strlit("status");
    reveal_strlit("call_id");
    reveal_strlit("content");
    reveal_strlit("item_id");
    reveal_strlit("message");
    reveal_strlit("refusal");
    reveal_strlit("summary");
    reveal_strlit("logprobs");
    reveal_strlit("response");
    reveal_strlit("arguments");
    reveal_strlit("assistant");
    reveal_strlit("auxiliary");
    reveal_strlit("completed");
    reveal_strlit("reasoning");
    reveal_strlit("created_at");
    reveal_strlit("incomplete");
    reveal_strlit("annotations");
    reveal_strlit("in_progress");
    reveal_strlit("output_text");
    reveal_strlit("response_id");
    reveal_strlit("input_tokens");
    reveal_strlit("output_index");
    reveal_strlit("summary_text");
    reveal_strlit("total_tokens");
    reveal_strlit("cached_tokens");
    reveal_strlit("content_index");
    reveal_strlit("function_call");
    reveal_strlit("output_tokens");
    reveal_strlit("summary_index");
    reveal_strlit("sequence_number");
    reveal_strlit("custom_tool_call");
    reveal_strlit("reasoning_tokens");
    reveal_strlit("max_output_tokens");
    reveal_strlit("incomplete_details");
    reveal_strlit("response.completed");
    reveal_strlit("input_tokens_details");
    reveal_strlit("output_tokens_details");
}

/// The names in Chat Completions requests and chunks, told apart.
pub proof fn chat()
    ensures
        "id"@.len() == 2,
        "url"@.len() == 3,
        "auto"@.len() == 4 && "auto"@[2] == 't',
        "name"@.len() == 4 && "name"@[2] == 'm',
        "none"@.len() == 4 && "none"@[2] == 'n',
        "role"@.len() == 4 && "role"@[2] == 'l',
        "text"@.len() == 4 && "text"@[2] == 'x',
        "tool"@.len() == 4 && "tool"@[2] == 'o',
        "type"@.len() == 4 && "type"@[2] == 'p',
        "user"@.len() == 4 && "user"@[2] == 'e',
        "delta"@.len() == 5 && "delta"@[4] == 'a',
        "error"@.len() == 5 && "error"@[4] == 'r',
        "index"@.len() == 5 && "index"@[4] == 'x',
        "input"@.len() == 5 && "input"@[4] == 't',
        "model"@.len() == 5 && "model"@[4] == 'l',
        "tools"@.len() == 5 && "tools"@[4] == 's',
        "usage"@.len() == 5 && "usage"@[4] == 'e',
        "effort"@.len() == 6 && "effort"@[1] == 'f',
        "length"@.len() == 6 && "length"@[1] == 'e',
        "object"@.len() == 6 && "object"@[1] == 'b',
        "output"@.len() == 6 && "output"@[1] == 'u',
        "stream"@.len() == 6 && "stream"@[1] == 't',
        "system"@.len() == 6 && "system"@[1] == 'y',
        "call_id"@.len() == 7 && "call_id"@[1] == 'a',
        "choices"@.len() == 7 && "choices"@[1] == 'h',
        "content"@.len() == 7 && "content"@[1] == 'o',
        "enabled"@.len() == 7 && "enabled"@[1] == 'n',
        "message"@.len() == 7 && "message"@[1] == 'e',
        "summary"@.len() == 7 && "summary"@[1] == 'u',
        "function"@.len() == 8 && "function"@[0] == 'f',
        "messages"@.len() == 8 && "messages"@[0] == 'm',
        "required"@.len() == 8 && "required"@[0] == 'r',
        "thinking"@.len() == 8 && "thinking"@[0] == 't',
        "arguments"@.len() == 9 && "arguments"@[3] == 'u',
        "assistant"@.len() == 9 && "assistant"@[3] == 'i',
        "developer"@.len() == 9 && "developer"@[3] == 'e',
        "image_url"@.len() == 9 && "image_url"@[3] == 'g',
        "reasoning"@.len() == 9 && "reasoning"@[3] == 's',
        "input_text"@.len() == 10 && "input_text"@[0] == 'i',
        "max_tokens"@.len() == 10 && "max_tokens"@[0] == 'm',
        "parameters"@.len() == 10 && "parameters"@[0] == 'p',
        "tool_calls"@.len() == 10 && "tool_calls"@[0] == 't',
        "description"@.len() == 11 && "description"@[0] == 'd',
        "input_image"@.len() == 11 && "input_image"@[0] == 'i',
        "output_text"@.len() == 11 && "output_text"@[0] == 'o',
        "tool_choice"@.len() == 11 && "tool_choice"@[0] == 't',
        "instructions"@.len() == 12 && "instructions"@[2] == 's',
        "tool_call_id"@.len() == 12 && "tool_call_id"@[2] == 'o',
        "total_tokens"@.len() == 12 && "total_tokens"@[2] == 't',
        "cached_tokens"@.len() == 13 && "cached_tokens"@[1] == 'a',
        "finish_reason"@.len() == 13 && "finish_reason"@[1] == 'i',
        "function_call"@.len() == 13 && "function_call"@[1] == 'u',
        "include_usage"@.len() == 13 && "include_usage"@[1] == 'n',
        "prompt_tokens"@.len() == 13 && "prompt_tokens"@[1] == 'r',
        "stream_options"@.len() == 14,
        "prompt_cache_key"@.len() == 16 && "prompt_cache_key"@[10] == 'h',
        "reasoning_effort"@.len() == 16 && "reasoning_effort"@[10] == 'e',
        "reasoning_tokens"@.len() == 16 && "reasoning_tokens"@[10] == 't',
        "completion_tokens"@.len() == 17 && "completion_tokens"@[0] == 'c',
        "max_output_tokens"@.len() == 17 && "max_output_tokens"@[0] == 'm',
        "reasoning_content"@.len() == 17 && "reasoning_content"@[0] == 'r',
        "function_call_output"@.len() == 20,
        "prompt_tokens_details"@.len() == 21,
        "completion_tokens_details"@.len() == 25,
{
    reveal_strlit("id");
    reveal_strlit("url");
    reveal_strlit("auto");
    reveal_strlit("name");
    reveal_strlit("none");
    reveal_strlit("role");
    reveal_strlit("text");
    reveal_strlit("tool");
    reveal_strlit("type");
    reveal_strlit("user");
    reveal_strlit("delta");
    reveal_strlit("error");
    reveal_strlit("index");
    reveal_strlit("input");
    reveal_strlit("model");
    reveal_strlit("tools");
    reveal_strlit("usage");
    reveal_strlit("effort");
    reveal_strlit("length");
    reveal_strlit("object");
    reveal_strlit("output");
    reveal_strlit("stream");
    reveal_strlit("system");
    reveal_strlit("call_id");
    reveal_strlit("choices");
    reveal_strlit("content");
    reveal_strlit("enabled");
    reveal_strlit("message");
    reveal_strlit("summary");
    reveal_strlit("function");
    reveal_strlit("messages");
    reveal_strlit("required");
    reveal_strlit("thinking");
    reveal_strlit("arguments");
    reveal_strlit("assistant");
    reveal_strlit("developer");
    reveal_strlit("image_url");
    reveal_strlit("reasoning");
    reveal_strlit("input_text");
    reveal_strlit("max_tokens");
    reveal_strlit("parameters");
    reveal_strlit("tool_calls");
    reveal_strlit("description");
    reveal_strlit("input_image");
    reveal_strlit("output_text");
    reveal_strlit("tool_choice");
    reveal_strlit("instructions");
    reveal_strlit("tool_call_id");
    reveal_strlit("total_tokens");
    reveal_strlit("cached_tokens");
    reveal_strlit("finish_reason");
    reveal_strlit("function_call");
    reveal_strlit("include_usage");
    reveal_strlit("prompt_tokens");
    reveal_strlit("stream_options");
    reveal_strlit("prompt_cache_key");
    reveal_strlit("reasoning_effort");
    reveal_strlit("reasoning_tokens");
    reveal_strlit("completion_tokens");
    reveal_strlit("max_output_tokens");
    reveal_strlit("reasoning_content");
    reveal_strlit("function_call_output");
    reveal_strlit("prompt_tokens_details");
    reveal_strlit("completion_tokens_details");
}

/// The names in Responses requests, told apart.
pub proof fn requests()
    ensures
        "id"@.len() == 2,
        "low"@.len() == 3,
        "auto"@.len() == 4 && "auto"@[1] == 'u',
        "role"@.len() == 4 && "role"@[1] == 'o',
        "text"@.len() == 4 && "text"@[1] == 'e',
        "true"@.len() == 4 && "true"@[1] == 'r',
        "type"@.len() == 4 && "type"@[1] == 'y',
        "user"@.len() == 4 && "user"@[1] == 's',
        "input"@.len() == 5 && "input"@[0] == 'i',
        "model"@.len() == 5 && "model"@[0] == 'm',
        "store"@.len() == 5 && "store"@[0] == 's',
        "tools"@.len() == 5 && "tools"@[0] == 't',
        "detail"@.len() == 6 && "detail"@[1] == 'e',
        "effort"@.len() == 6 && "effort"@[1] == 'f',
        "stream"@.len() == 6 && "stream"@[1] == 't',
        "system"@.len() == 6 && "system"@[1] == 'y',
        "call_id"@.len() == 7 && "call_id"@[5] == 'i',
        "content"@.len() == 7 && "content"@[5] == 'n',
        "context"@.len() == 7 && "context"@[5] == 'x',
        "include"@.len() == 7 && "include"@[5] == 'd',
        "message"@.len() == 7 && "message"@[5] == 'g',
        "priority"@.len() == 8,
        "all_turns"@.len() == 9 && "all_turns"@[0] == 'a',
        "developer"@.len() == 9 && "developer"@[0] == 'd',
        "reasoning"@.len() == 9 && "reasoning"@[0] == 'r',
        "thread_id"@.len() == 9 && "thread_id"@[0] == 't',
        "verbosity"@.len() == 9 && "verbosity"@[0] == 'v',
        "window_id"@.len() == 9 && "window_id"@[0] == 'w',
        "input_text"@.len() == 10 && "input_text"@[0] == 'i',
        "session_id"@.len() == 10 && "session_id"@[0] == 's',
        "input_image"@.len() == 11 && "input_image"@[0] == 'i',
        "tool_choice"@.len() == 11 && "tool_choice"@[0] == 't',
        "instructions"@.len() == 12 && "instructions"@[0] == 'i',
        "service_tier"@.len() == 12 && "service_tier"@[0] == 's',
        "stream_options"@.len() == 14,
        "client_metadata"@.len() == 15,
        "additional_tools"@.len() == 16 && "additional_tools"@[0] == 'a',
        "prompt_cache_key"@.len() == 16 && "prompt_cache_key"@[0] == 'p',
        "parallel_tool_calls"@.len() == 19,
        "prompt_cache_options"@.len() == 20,
        "prompt_cache_retention"@.len() == 22,
        "ws_request_header_x_openai_internal_codex_responses_lite"@.len() == 56,
{
    reveal_strlit("id");
    reveal_strlit("low");
    reveal_strlit("auto");
    reveal_strlit("role");
    reveal_strlit("text");
    reveal_strlit("true");
    reveal_strlit("type");
    reveal_strlit("user");
    reveal_strlit("input");
    reveal_strlit("model");
    reveal_strlit("store");
    reveal_strlit("tools");
    reveal_strlit("detail");
    reveal_strlit("effort");
    reveal_strlit("stream");
    reveal_strlit("system");
    reveal_strlit("call_id");
    reveal_strlit("content");
    reveal_strlit("context");
    reveal_strlit("include");
    reveal_strlit("message");
    reveal_strlit("priority");
    reveal_strlit("all_turns");
    reveal_strlit("developer");
    reveal_strlit("reasoning");
    reveal_strlit("thread_id");
    reveal_strlit("verbosity");
    reveal_strlit("window_id");
    reveal_strlit("input_text");
    reveal_strlit("session_id");
    reveal_strlit("input_image");
    reveal_strlit("tool_choice");
    reveal_strlit("instructions");
    reveal_strlit("service_tier");
    reveal_strlit("stream_options");
    reveal_strlit("client_metadata");
    reveal_strlit("additional_tools");
    reveal_strlit("prompt_cache_key");
    reveal_strlit("parallel_tool_calls");
    reveal_strlit("prompt_cache_options");
    reveal_strlit("prompt_cache_retention");
    reveal_strlit("ws_request_header_x_openai_internal_codex_responses_lite");
}

/// The names in the proxy's own replies, told apart.
pub proof fn replies()
    ensures
        "id"@.len() == 2 && "id"@[0] == 'i',
        "ok"@.len() == 2 && "ok"@[0] == 'o',
        "auth"@.len() == 4 && "auth"@[0] == 'a',
        "data"@.len() == 4 && "data"@[0] == 'd',
        "kimi"@.len() == 4 && "kimi"@[0] == 'k',
        "list"@.len() == 4 && "list"@[0] == 'l',
        "name"@.len() == 4 && "name"@[0] == 'n',
        "type"@.len() == 4 && "type"@[0] == 't',
        "codex"@.len() == 5 && "codex"@[0] == 'c',
        "error"@.len() == 5 && "error"@[0] == 'e',
        "label"@.len() == 5 && "label"@[0] == 'l',
        "model"@.len() == 5 && "model"@[0] == 'm',
        "value"@.len() == 5 && "value"@[0] == 'v',
        "object"@.len() == 6,
        "default"@.len() == 7 && "default"@[0] == 'd',
        "message"@.len() == 7 && "message"@[0] == 'm',
        "service"@.len() == 7 && "service"@[0] == 's',
        "version"@.len() == 7 && "version"@[0] == 'v',
        "owned_by"@.len() == 8 && "owned_by"@[0] == 'o',
        "provider"@.len() == 8 && "provider"@[0] == 'p',
        "responses"@.len() == 9,
        "api_backend"@.len() == 11 && "api_backend"@[0] == 'a',
        "description"@.len() == 11 && "description"@[0] == 'd',
        "service_tier"@.len() == 12 && "service_tier"@[0] == 's',
        "target_model"@.len() == 12 && "target_model"@[0] == 't',
        "context_window"@.len() == 14,
        "reasoning_effort"@.len() == 16,
        "reasoning_efforts"@.len() == 17,
        "model_substitutions"@.len() == 19,
        "supports_reasoning_effort"@.len() == 25,
{
    reveal_strlit("id");
    reveal_strlit("ok");
    reveal_strlit("auth");
    reveal_strlit("data");
    reveal_strlit("kimi");
    reveal_strlit("list");
    reveal_strlit("name");
    reveal_strlit("type");
    reveal_strlit("codex");
    reveal_strlit("error");
    reveal_strlit("label");
    reveal_strlit("model");
    reveal_strlit("value");
    reveal_strlit("object");
    reveal_strlit("default");
    reveal_strlit("message");
    reveal_strlit("service");
    reveal_strlit("version");
    reveal_strlit("owned_by");
    reveal_strlit("provider");
    reveal_strlit("responses");
    reveal_strlit("api_backend");
    reveal_strlit("description");
    reveal_strlit("service_tier");
    reveal_strlit("target_model");
    reveal_strlit("context_window");
    reveal_strlit("reasoning_effort");
    reveal_strlit("reasoning_efforts");
    reveal_strlit("model_substitutions");
    reveal_strlit("supports_reasoning_effort");
}

/// The names of the fields of a configured model, told apart.
pub proof fn settings()
    ensures
        "name"@.len() == 4,
        "model"@.len() == 5,
        "unused"@.len() == 6,
        "api_key"@.len() == 7 && "api_key"@[0] == 'a',
        "missing"@.len() == 7 && "missing"@[0] == 'm',
        "present"@.len() == 7 && "present"@[0] == 'p',
        "base_url"@.len() == 8,
        "responses"@.len() == 9,
        "api_backend"@.len() == 11 && "api_backend"@[0] == 'a',
        "description"@.len() == 11 && "description"@[0] == 'd',
        "context_window"@.len() == 14,
        "reasoning_efforts"@.len() == 17,
        "supports_reasoning_effort"@.len() == 25,
{
    reveal_strlit("name");
    reveal_strlit("model");
    reveal_strlit("unused");
    reveal_strlit("api_key");
    reveal_strlit("missing");
    reveal_strlit("present");
    reveal_strlit("base_url");
    reveal_strlit("responses");
    reveal_strlit("api_backend");
    reveal_strlit("description");
    reveal_strlit("context_window");
    reveal_strlit("reasoning_efforts");
    reveal_strlit("supports_reasoning_effort");
}

/// The names in stored credentials, told apart.
pub proof fn tokens()
    ensures
        "tokens"@.len() == 6,
        "id_token"@.len() == 8,
        "account_id"@.len() == 10,
        "access_token"@.len() == 12 && "access_token"@[0] == 'a',
        "last_refresh"@.len() == 12 && "last_refresh"@[0] == 'l',
        "refresh_token"@.len() == 13,
{
    reveal_strlit("tokens");
    reveal_strlit("id_token");
    reveal_strlit("account_id");
    reveal_strlit("access_token");
    reveal_strlit("last_refresh");
    reveal_strlit("refresh_token");
}

/// The names in a report of failures, told apart.
pub proof fn failures()
    ensures
        "ts"@.len() == 2,
        "fast"@.len() == 4 && "fast"@[0] == 'f',
        "kind"@.len() == 4 && "kind"@[0] == 'k',
        "lite"@.len() == 4 && "lite"@[0] == 'l',
        "meta"@.len() == 4 && "meta"@[0] == 'm',
        "model"@.len() == 5,
        "filter"@.len() == 6 && "filter"@[0] == 'f',
        "listen"@.len() == 6 && "listen"@[0] == 'l',
        "mapped"@.len() == 6 && "mapped"@[0] == 'm',
        "attempt"@.len() == 7 && "attempt"@[0] == 'a',
        "summary"@.len() == 7 && "summary"@[0] == 's',
        "version"@.len() == 7 && "version"@[0] == 'v',
        "failures"@.len() == 8,
        "generated"@.len() == 9,
        "error_type"@.len() == 10 && "error_type"@[0] == 'e',
        "request_id"@.len() == 10 && "request_id"@[0] == 'r',
        "session_id"@.len() == 10 && "session_id"@[0] == 's',
        "duration_ms"@.len() == 11 && "duration_ms"@[0] == 'd',
        "response_id"@.len() == 11 && "response_id"@[0] == 'r',
        "status_code"@.len() == 11 && "status_code"@[0] == 's',
        "auth_retried"@.len() == 12 && "auth_retried"@[0] == 'a',
        "output_count"@.len() == 12 && "output_count"@[0] == 'o',
        "capture_bytes"@.len() == 13 && "capture_bytes"@[0] == 'c',
        "error_message"@.len() == 13 && "error_message"@[0] == 'e',
        "failure_count"@.len() == 13 && "failure_count"@[0] == 'f',
        "requested_model"@.len() == 15,
        "session_failure_index"@.len() == 21,
{
    reveal_strlit("ts");
    reveal_strlit("fast");
    reveal_strlit("kind");
    reveal_strlit("lite");
    reveal_strlit("meta");
    reveal_strlit("model");
    reveal_strlit("filter");
    reveal_strlit("listen");
    reveal_strlit("mapped");
    reveal_strlit("attempt");
    reveal_strlit("summary");
    reveal_strlit("version");
    reveal_strlit("failures");
    reveal_strlit("generated");
    reveal_strlit("error_type");
    reveal_strlit("request_id");
    reveal_strlit("session_id");
    reveal_strlit("duration_ms");
    reveal_strlit("response_id");
    reveal_strlit("status_code");
    reveal_strlit("auth_retried");
    reveal_strlit("output_count");
    reveal_strlit("capture_bytes");
    reveal_strlit("error_message");
    reveal_strlit("failure_count");
    reveal_strlit("requested_model");
    reveal_strlit("session_failure_index");
}

} // verus!

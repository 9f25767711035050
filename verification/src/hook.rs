//! The dispatcher: given an event name, the event payload and the resolved
//! configuration, decide whether to play and what. Absence of configuration,
//! absence of a rule for the event, and a matcher that rejects are silent,
//! successful no-ops, never errors.

use vstd::prelude::*;

use crate::config::{get_hook_config, spec_hook_lookup, HasshaConfig, HookConfigView};
use crate::matcher::{matches_pattern, pattern_matches};
use crate::strutil::str_eq;

verus! {

/// One event payload: the working directory, the event name, and the
/// event-kind-specific optional fields a matcher may discriminate on.
pub struct HookInput {
    pub cwd: String,
    pub hook_event_name: String,
    pub session_id: Option<String>,
    pub tool_name: Option<String>,
    pub source: Option<String>,
    pub notification_type: Option<String>,
    pub agent_type: Option<String>,
    pub reason: Option<String>,
    pub trigger: Option<String>,
}

/// The mathematical image of a `HookInput`.
pub struct HookInputView {
    pub cwd: Seq<char>,
    pub hook_event_name: Seq<char>,
    pub session_id: Option<Seq<char>>,
    pub tool_name: Option<Seq<char>>,
    pub source: Option<Seq<char>>,
    pub notification_type: Option<Seq<char>>,
    pub agent_type: Option<Seq<char>>,
    pub reason: Option<Seq<char>>,
    pub trigger: Option<Seq<char>>,
}

/// The view of an optional string.
pub open spec fn opt_view(o: Option<String>) -> Option<Seq<char>> {
    match o {
        Some(s) => Some(s@),
        None => None,
    }
}

impl View for HookInput {
    type V = HookInputView;

    open spec fn view(&self) -> HookInputView {
        HookInputView {
            cwd: self.cwd@,
            hook_event_name: self.hook_event_name@,
            session_id: opt_view(self.session_id),
            tool_name: opt_view(self.tool_name),
            source: opt_view(self.source),
            notification_type: opt_view(self.notification_type),
            agent_type: opt_view(self.agent_type),
            reason: opt_view(self.reason),
            trigger: opt_view(self.trigger),
        }
    }
}

/// The payload field a matcher discriminates on, chosen by event name:
/// tool-related events give the tool name, session start its source,
/// session end its reason, notifications their type, subagent events the
/// agent type, and compaction its trigger; other events have none.
pub open spec fn spec_matcher_value(event: Seq<char>, input: HookInputView) -> Option<Seq<char>> {
    if event == "PreToolUse"@ || event == "PostToolUse"@ || event == "PostToolUseFailure"@ || event
        == "PermissionRequest"@ {
        input.tool_name
    } else if event == "SessionStart"@ {
        input.source
    } else if event == "SessionEnd"@ {
        input.reason
    } else if event == "Notification"@ {
        input.notification_type
    } else if event == "SubagentStart"@ || event == "SubagentStop"@ {
        input.agent_type
    } else if event == "PreCompact"@ {
        input.trigger
    } else {
        None
    }
}

/// Clone an optional string.
fn clone_opt(o: &Option<String>) -> (r: Option<String>)
    ensures
        r == *o,
{
    match o {
        Some(s) => Some(s.clone()),
        None => None,
    }
}

/// The matcher value for `event` from `input`, per `spec_matcher_value`.
pub fn get_matcher_value(event_name: &str, input: &HookInput) -> (r: Option<String>)
    ensures
        opt_view(r) == spec_matcher_value(event_name@, input@),
{
    if str_eq(event_name, "PreToolUse") || str_eq(event_name, "PostToolUse") || str_eq(
        event_name,
        "PostToolUseFailure",
    ) || str_eq(event_name, "PermissionRequest") {
        clone_opt(&input.tool_name)
    } else if str_eq(event_name, "SessionStart") {
        clone_opt(&input.source)
    } else if str_eq(event_name, "SessionEnd") {
        clone_opt(&input.reason)
    } else if str_eq(event_name, "Notification") {
        clone_opt(&input.notification_type)
    } else if str_eq(event_name, "SubagentStart") || str_eq(event_name, "SubagentStop") {
        clone_opt(&input.agent_type)
    } else if str_eq(event_name, "PreCompact") {
        clone_opt(&input.trigger)
    } else {
        None
    }
}

/// What one dispatch decides: do nothing, or play a melody.
pub enum HookDecision {
    /// Nothing is configured for this event, or its matcher rejects the
    /// payload: do nothing and finish successfully.
    Silent,
    /// Play `melody` at `volume` (thousandths of full amplitude) and record
    /// the dispatch, with the payload's tool name and the rule's matcher.
    Play { melody: String, volume: u32, tool_name: Option<String>, matcher: Option<String> },
}

/// The mathematical image of a `HookDecision`.
pub enum HookDecisionView {
    Silent,
    Play {
        melody: Seq<char>,
        volume: u32,
        tool_name: Option<Seq<char>>,
        matcher: Option<Seq<char>>,
    },
}

impl View for HookDecision {
    type V = HookDecisionView;

    open spec fn view(&self) -> HookDecisionView {
        match self {
            HookDecision::Silent => HookDecisionView::Silent,
            HookDecision::Play { melody, volume, tool_name, matcher } => HookDecisionView::Play {
                melody: melody@,
                volume: *volume,
                tool_name: opt_view(*tool_name),
                matcher: opt_view(*matcher),
            },
        }
    }
}

/// Whether the rule's matcher lets the payload through: no matcher always
/// does; a matcher is evaluated against the event's discriminant field,
/// taken as empty when the payload has none.
pub open spec fn spec_matcher_passes(
    hc: HookConfigView,
    event: Seq<char>,
    input: HookInputView,
) -> bool {
    match hc.matcher {
        Some(pat) => pattern_matches(
            pat,
            match spec_matcher_value(event, input) {
                Some(v) => v,
                None => Seq::empty(),
            },
        ),
        None => true,
    }
}

/// What one dispatch decides: silent without a configuration, without a
/// rule for the event, or when the rule's matcher rejects the payload;
/// otherwise play the rule's melody at its volume, recording the payload's
/// tool name and the rule's matcher.
pub open spec fn spec_handle_hook(
    event: Seq<char>,
    input: HookInputView,
    config: Option<Seq<(Seq<char>, HookConfigView)>>,
) -> HookDecisionView {
    match config {
        None => HookDecisionView::Silent,
        Some(hooks) => match spec_hook_lookup(hooks, event) {
            None => HookDecisionView::Silent,
            Some(hc) => if spec_matcher_passes(hc, event, input) {
                HookDecisionView::Play {
                    melody: hc.melody,
                    volume: hc.volume,
                    tool_name: input.tool_name,
                    matcher: hc.matcher,
                }
            } else {
                HookDecisionView::Silent
            },
        },
    }
}

/// Decide one dispatch: with no configuration, no rule for the event, or a
/// matcher that rejects the payload's discriminant field, stay silent;
/// otherwise play the configured melody at the configured volume.
pub fn handle_hook(event_name: &str, input: &HookInput, config: Option<&HasshaConfig>) -> (r:
    HookDecision)
    ensures
        r@ == spec_handle_hook(
            event_name@,
            input@,
            match config {
                Some(c) => Some(c@),
                None => None,
            },
        ),
{
    let c = match config {
        Some(c) => c,
        None => {
            return HookDecision::Silent;
        },
    };
    let hc = match get_hook_config(c, event_name) {
        Some(hc) => hc,
        None => {
            return HookDecision::Silent;
        },
    };
    match &hc.matcher {
        Some(pat) => {
            let matcher_value = get_matcher_value(event_name, input);
            let value: &str = match &matcher_value {
                Some(v) => v.as_str(),
                None => "",
            };
            proof {
                reveal_strlit("");
                assert(""@ =~= Seq::<char>::empty());
            }
            if !matches_pattern(pat.as_str(), value) {
                return HookDecision::Silent;
            }
        },
        None => {},
    }
    HookDecision::Play {
        melody: hc.melody.clone(),
        volume: hc.volume,
        tool_name: clone_opt(&input.tool_name),
        matcher: clone_opt(&hc.matcher),
    }
}

} // verus!

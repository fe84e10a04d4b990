//! The legacy cloud resume card, as the island once showed it: its wording,
//! its resume point, and the output path the island remembers.
//!
//! The card's JSON targets are read into plain fields by whoever fetched
//! the card: a target holds, for each key the island looks at, the text
//! found there when it is a string.
use vstd::prelude::*;
use crate::contract::concat;
use crate::copy::{clean_line, clean_one_line};
use crate::island::{same_capture_part, SessionIslandSnapshot};
use crate::text::{
    contains, copy_str, opt_str, str_contains, str_eq, str_is_blank, is_blank, strs,
    unicode_lower, unicode_lowercase,
};

verus! {

/// The texts a cloud target offers as its label, each present when the
/// target holds a string there: `line_anchor.quote`, `exact_visible_words`,
/// `exact_words`, `title`, `app`.
#[derive(Debug, Clone, PartialEq, Eq, Default)]
pub struct CloudTarget {
    pub line_anchor_quote: Option<String>,
    pub exact_visible_words: Option<String>,
    pub exact_words: Option<String>,
    pub title: Option<String>,
    pub app: Option<String>,
}

/// Where a local resume card says to continue from.
#[derive(Debug, Clone, PartialEq, Eq, Default)]
pub struct ResumeContinueFrom {
    pub line_anchor_quote: Option<String>,
    pub quote: Option<String>,
    pub title: Option<String>,
    pub window_name: Option<String>,
    pub app_name: Option<String>,
    pub url: Option<String>,
    pub document_path: Option<String>,
}

/// The local resume card a cloud answer falls back to.
#[derive(Debug, Clone, PartialEq, Eq, Default)]
pub struct NativeResumeCard {
    pub focus_now: String,
    pub what_was_i_doing: String,
    pub continue_from: ResumeContinueFrom,
}

/// A cloud resume answer. `answer` holds the string entries of the answer
/// object, by key.
#[derive(Debug, Clone, PartialEq, Eq, Default)]
pub struct CloudResumeResult {
    pub source: String,
    pub model: Option<String>,
    pub response_id: Option<String>,
    pub output_path: Option<String>,
    pub warnings: Vec<String>,
    pub decision: String,
    pub answer: Vec<(String, String)>,
    pub current_focus: CloudTarget,
    pub resume_target_if_returning: CloudTarget,
    pub resume_target: CloudTarget,
    pub local_card: NativeResumeCard,
}

/// The first of a list of optional texts that is present.
pub open spec fn first_present(values: Seq<Option<Seq<char>>>) -> Option<Seq<char>>
    decreases values.len(),
{
    if values.len() == 0 {
        None
    } else {
        match values[0] {
            Some(v) => Some(v),
            None => first_present(values.drop_first()),
        }
    }
}

/// The label of a cloud target: the first text it offers, on one line.
pub open spec fn target_label(t: CloudTarget) -> Option<Seq<char>> {
    clean_line(
        first_present(
            seq![
                opt_str(t.line_anchor_quote),
                opt_str(t.exact_visible_words),
                opt_str(t.exact_words),
                opt_str(t.title),
                opt_str(t.app),
            ],
        ),
    )
}

/// The resume point of a local card: the first place it names, on one line.
pub open spec fn card_point_label(c: NativeResumeCard) -> Option<Seq<char>> {
    let f = c.continue_from;
    clean_line(
        first_present(
            seq![
                opt_str(f.line_anchor_quote),
                opt_str(f.quote),
                opt_str(f.title),
                opt_str(f.window_name),
                opt_str(f.app_name),
                opt_str(f.url),
                opt_str(f.document_path),
            ],
        ),
    )
}

/// The text of the first entry of `answer` under `key`.
pub open spec fn answer_entry(answer: Seq<(String, String)>, key: Seq<char>) -> Option<Seq<char>>
    decreases answer.len(),
{
    if answer.len() == 0 {
        None
    } else if answer[0].0@ == key {
        Some(answer[0].1@)
    } else {
        answer_entry(answer.drop_first(), key)
    }
}

/// The first warning that has words, on one line.
pub open spec fn first_clean_warning(warnings: Seq<Seq<char>>) -> Option<Seq<char>>
    decreases warnings.len(),
{
    if warnings.len() == 0 {
        None
    } else {
        match clean_line(Some(warnings[0])) {
            Some(w) => Some(w),
            None => first_clean_warning(warnings.drop_first()),
        }
    }
}

/// The first of two optional texts that is present.
fn or_text(a: Option<String>, b: Option<String>) -> (r: Option<String>)
    ensures
        r == (match a {
            Some(x) => Some(x),
            None => b,
        }),
{
    match a {
        Some(x) => Some(x),
        None => b,
    }
}

/// The label of a cloud target.
pub fn cloud_target_label(target: &CloudTarget) -> (r: Option<String>)
    ensures
        opt_str(r) == target_label(*target),
{
    let picked: Option<&String> = if target.line_anchor_quote.is_some() {
        target.line_anchor_quote.as_ref()
    } else if target.exact_visible_words.is_some() {
        target.exact_visible_words.as_ref()
    } else if target.exact_words.is_some() {
        target.exact_words.as_ref()
    } else if target.title.is_some() {
        target.title.as_ref()
    } else {
        target.app.as_ref()
    };
    proof {
        reveal_with_fuel(first_present, 6);
    }
    match picked {
        Some(p) => clean_one_line(Some(p.as_str())),
        None => None,
    }
}

/// The resume point of a local card.
pub fn resume_point_label(card: &NativeResumeCard) -> (r: Option<String>)
    ensures
        opt_str(r) == card_point_label(*card),
{
    let f = &card.continue_from;
    let picked: Option<&String> = if f.line_anchor_quote.is_some() {
        f.line_anchor_quote.as_ref()
    } else if f.quote.is_some() {
        f.quote.as_ref()
    } else if f.title.is_some() {
        f.title.as_ref()
    } else if f.window_name.is_some() {
        f.window_name.as_ref()
    } else if f.app_name.is_some() {
        f.app_name.as_ref()
    } else if f.url.is_some() {
        f.url.as_ref()
    } else {
        f.document_path.as_ref()
    };
    proof {
        reveal_with_fuel(first_present, 8);
    }
    match picked {
        Some(p) => clean_one_line(Some(p.as_str())),
        None => None,
    }
}

/// The answer's text under `key`, on one line.
pub fn cloud_answer_text(result: &CloudResumeResult, key: &str) -> (r: Option<String>)
    ensures
        opt_str(r) == clean_line(answer_entry(result.answer@, key@)),
{
    let mut i: usize = 0;
    assert(result.answer@.skip(0) =~= result.answer@);
    while i < result.answer.len()
        invariant
            i <= result.answer@.len(),
            answer_entry(result.answer@, key@) == answer_entry(result.answer@.skip(i as int), key@),
        decreases result.answer.len() - i,
    {
        proof {
            assert(result.answer@.skip(i as int).drop_first() =~= result.answer@.skip(i as int + 1));
        }
        if str_eq(result.answer[i].0.as_str(), key) {
            return clean_one_line(Some(result.answer[i].1.as_str()));
        }
        i = i + 1;
    }
    None
}

/// The resume point of a cloud answer: the returning target's label, or else
/// the resume target's.
pub fn cloud_resume_point_label(result: &CloudResumeResult) -> (r: Option<String>)
    ensures
        opt_str(r) == (match target_label(result.resume_target_if_returning) {
            Some(l) => Some(l),
            None => target_label(result.resume_target),
        }),
{
    or_text(
        cloud_target_label(&result.resume_target_if_returning),
        cloud_target_label(&result.resume_target),
    )
}

/// The first warning that has words, on one line.
fn first_warning(warnings: &Vec<String>) -> (r: Option<String>)
    ensures
        opt_str(r) == first_clean_warning(strs(warnings@)),
{
    let mut i: usize = 0;
    assert(strs(warnings@).skip(0) =~= strs(warnings@));
    while i < warnings.len()
        invariant
            i <= warnings@.len(),
            first_clean_warning(strs(warnings@)) == first_clean_warning(strs(warnings@).skip(i as int)),
        decreases warnings.len() - i,
    {
        proof {
            assert(strs(warnings@).skip(i as int).drop_first() =~= strs(warnings@).skip(i as int + 1));
        }
        let w = clean_one_line(Some(warnings[i].as_str()));
        if w.is_some() {
            return w;
        }
        i = i + 1;
    }
    None
}

/// The output path the island remembers of a cloud answer: its path, when
/// it is not blank.
pub fn cloud_output_path_to_remember(result: &CloudResumeResult) -> (r: Option<String>)
    ensures
        opt_str(r) == (match opt_str(result.output_path) {
            Some(p) => if is_blank(p) {
                None
            } else {
                Some(p)
            },
            None => None,
        }),
{
    match &result.output_path {
        Some(p) => if str_is_blank(p.as_str()) {
            None
        } else {
            Some(p.clone())
        },
        None => None,
    }
}

/// The wording a cloud answer gives the island: the headline, the detail and
/// the resume point.
pub open spec fn cloud_wording(
    r: CloudResumeResult,
    warning: Option<Seq<char>>,
) -> (Option<Seq<char>>, Option<Seq<char>>, Option<Seq<char>>) {
    if r.source@ == "cloud"@ {
        let current = target_label(r.current_focus);
        let returning = target_label(r.resume_target_if_returning);
        let split = current is Some && returning is Some && current != returning
            && r.decision@ == "ambiguous_current_focus_vs_prior_task"@;
        let headline = if split {
            Some("Current focus differs from return target"@)
        } else {
            match clean_line(answer_entry(r.answer@, "focus_now"@)) {
                Some(t) => Some(t),
                None => clean_line(Some(r.local_card.focus_now@)),
            }
        };
        let detail = if split {
            Some(
                "Current focus: "@ + current.unwrap() + ". Return target: "@ + returning.unwrap()
                    + "."@,
            )
        } else {
            match clean_line(answer_entry(r.answer@, "what_was_i_doing"@)) {
                Some(t) => Some(t),
                None => clean_line(Some(r.local_card.what_was_i_doing@)),
            }
        };
        let point = match target_label(r.resume_target_if_returning) {
            Some(l) => Some(l),
            None => match target_label(r.resume_target) {
                Some(l) => Some(l),
                None => card_point_label(r.local_card),
            },
        };
        (headline, detail, point)
    } else {
        let lower = unicode_lower(
            match warning {
                Some(w) => w,
                None => ""@,
            },
        );
        let headline = if contains(lower, "openai_api_key"@) || contains(lower, "key"@) {
            "OpenAI key missing"@
        } else {
            "OpenAI unavailable"@
        };
        let detail = match warning {
            Some(w) => Some(w),
            None => clean_line(Some(r.local_card.what_was_i_doing@)),
        };
        (Some(headline), detail, card_point_label(r.local_card))
    }
}

/// Shows a cloud resume answer in the snapshot: its source, model and
/// response, its first warning, and its wording.
pub fn apply_cloud_resume_to_snapshot(snapshot: &mut SessionIslandSnapshot, result: &CloudResumeResult)
    ensures
        same_capture_part(*old(snapshot), *final(snapshot)),
        opt_str(final(snapshot).resume_source) == Some(result.source@),
        opt_str(final(snapshot).resume_model) == opt_str(result.model),
        opt_str(final(snapshot).resume_response_id) == opt_str(result.response_id),
        opt_str(final(snapshot).resume_warning) == first_clean_warning(strs(result.warnings@)),
        ({
            let (headline, detail, point) = cloud_wording(
                *result,
                first_clean_warning(strs(result.warnings@)),
            );
            &&& opt_str(final(snapshot).resume_headline) == headline
            &&& opt_str(final(snapshot).resume_detail) == detail
            &&& opt_str(final(snapshot).resume_point) == point
        }),
        final(snapshot).continue_decision_id == old(snapshot).continue_decision_id,
        final(snapshot).continue_freshness == old(snapshot).continue_freshness,
        final(snapshot).evidence_updated_at_ms == old(snapshot).evidence_updated_at_ms,
        final(snapshot).decision_updated_at_ms == old(snapshot).decision_updated_at_ms,
        final(snapshot).continue_openable == old(snapshot).continue_openable,
        final(snapshot).island_continue_state == old(snapshot).island_continue_state,
{
    let warning = first_warning(&result.warnings);
    snapshot.resume_source = Some(result.source.clone());
    snapshot.resume_model = crate::capture::copy_opt_str(&result.model);
    snapshot.resume_response_id = crate::capture::copy_opt_str(&result.response_id);
    if str_eq(result.source.as_str(), "cloud") {
        let current_label = cloud_target_label(&result.current_focus);
        let return_label = cloud_target_label(&result.resume_target_if_returning);
        let differ = match (&current_label, &return_label) {
            (Some(c), Some(r)) => !str_eq(c.as_str(), r.as_str()),
            _ => false,
        };
        let split_targets = differ && str_eq(
            result.decision.as_str(),
            "ambiguous_current_focus_vs_prior_task",
        );
        if split_targets {
            let current = match current_label {
                Some(c) => c,
                None => copy_str("unknown"),
            };
            let returning = match return_label {
                Some(r) => r,
                None => copy_str("unknown"),
            };
            let detail = concat(
                concat(
                    concat(concat("Current focus: ", current.as_str()).as_str(), ". Return target: ").as_str(),
                    returning.as_str(),
                ).as_str(),
                ".",
            );
            snapshot.resume_headline = Some(copy_str("Current focus differs from return target"));
            snapshot.resume_detail = Some(detail);
        } else {
            snapshot.resume_headline = or_text(
                cloud_answer_text(result, "focus_now"),
                clean_one_line(Some(result.local_card.focus_now.as_str())),
            );
            snapshot.resume_detail = or_text(
                cloud_answer_text(result, "what_was_i_doing"),
                clean_one_line(Some(result.local_card.what_was_i_doing.as_str())),
            );
        }
        snapshot.resume_point = or_text(
            cloud_resume_point_label(result),
            resume_point_label(&result.local_card),
        );
    } else {
        let lower = match &warning {
            Some(w) => unicode_lowercase(w.as_str()),
            None => unicode_lowercase(""),
        };
        let keyed = str_contains(lower.as_str(), "openai_api_key") || str_contains(
            lower.as_str(),
            "key",
        );
        snapshot.resume_headline = Some(
            copy_str(
                if keyed {
                    "OpenAI key missing"
                } else {
                    "OpenAI unavailable"
                },
            ),
        );
        snapshot.resume_detail = or_text(
            crate::capture::copy_opt_str(&warning),
            clean_one_line(Some(result.local_card.what_was_i_doing.as_str())),
        );
        snapshot.resume_point = resume_point_label(&result.local_card);
    }
    snapshot.resume_warning = warning;
}

} // verus!

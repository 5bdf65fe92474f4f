//! Hook system: the command and environment of user-defined shell hooks.

use vstd::prelude::*;
use crate::numeric::{decimal_repr, i64_to_decimal, signed_repr, u64_to_decimal};
use crate::queue::Job;
use crate::queue::job::status_name;
use crate::text::{join_strings, or_empty, owned, owned_or_empty, seq_join, views};

verus! {

/// The environment a hook runs with: what it is told of the job.
pub open spec fn spec_hook_env(job: Job) -> Seq<(Seq<char>, Seq<char>)> {
    seq![
        ("FERRUM_JOB_ID"@, signed_repr(job.id as int)),
        ("FERRUM_URL"@, job.url@),
        ("FERRUM_STATUS"@, status_name(job.status)),
        ("FERRUM_FILENAME"@, or_empty(job.filename)),
        ("FERRUM_OUTPUT_PATH"@, or_empty(job.output_path)),
        ("FERRUM_SIZE"@, decimal_repr(job.total_size as nat)),
        ("FERRUM_CATEGORY"@, or_empty(job.category)),
        ("FERRUM_TAGS"@, seq_join(views(job.tags@), ","@)),
        ("FERRUM_ERROR"@, or_empty(job.error)),
    ]
}

/// The characters of each name and value of an environment.
pub open spec fn env_view(e: Seq<(String, String)>) -> Seq<(Seq<char>, Seq<char>)> {
    e.map_values(|p: (String, String)| (p.0@, p.1@))
}

/// The environment variables a hook script runs with.
pub fn hook_env(job: &Job) -> (r: Vec<(String, String)>)
    ensures
        env_view(r@) == spec_hook_env(*job),
        env_value(env_view(r@), "FERRUM_ERROR"@) == Some(text_or_blank(job.error)),
{
    let mut r: Vec<(String, String)> = Vec::new();
    r.push((owned("FERRUM_JOB_ID"), i64_to_decimal(job.id)));
    r.push((owned("FERRUM_URL"), owned(job.url.as_str())));
    r.push((owned("FERRUM_STATUS"), owned(job.status.as_str())));
    r.push((owned("FERRUM_FILENAME"), owned_or_empty(&job.filename)));
    r.push((owned("FERRUM_OUTPUT_PATH"), owned_or_empty(&job.output_path)));
    r.push((owned("FERRUM_SIZE"), u64_to_decimal(job.total_size)));
    r.push((owned("FERRUM_CATEGORY"), owned_or_empty(&job.category)));
    r.push((owned("FERRUM_TAGS"), join_strings(&job.tags, ",")));
    r.push((owned("FERRUM_ERROR"), owned_or_empty(&job.error)));
    assert(env_view(r@) =~= spec_hook_env(*job));
    proof {
        lemma_hook_env_values(*job);
    }
    r
}

/// The value that an environment gives a name: that of its last entry with
/// the name (a later setting overrides an earlier one), if any.
pub open spec fn env_value(env: Seq<(Seq<char>, Seq<char>)>, name: Seq<char>) -> Option<
    Seq<char>,
>
    decreases env.len(),
{
    if env.len() == 0 {
        None
    } else if env.last().0 == name {
        Some(env.last().1)
    } else {
        env_value(env.drop_last(), name)
    }
}

/// The text of an optional field, the empty string where it is unset.
pub open spec fn text_or_blank(o: Option<String>) -> Seq<char> {
    match o {
        Some(s) => s@,
        None => Seq::empty(),
    }
}

/// What a hook is told of its job: `FERRUM_ERROR` holds the job's error (empty
/// only where it has none), `FERRUM_URL` its URL, `FERRUM_STATUS` its status
/// word, and `FERRUM_FILENAME`, `FERRUM_OUTPUT_PATH` and `FERRUM_CATEGORY` the
/// file name, output path and category, each empty where unset.
pub proof fn lemma_hook_env_values(job: Job)
    ensures
        ({
            let env = spec_hook_env(job);
            &&& env_value(env, "FERRUM_ERROR"@) == Some(text_or_blank(job.error))
            &&& env_value(env, "FERRUM_URL"@) == Some(job.url@)
            &&& env_value(env, "FERRUM_STATUS"@) == Some(status_name(job.status))
            &&& env_value(env, "FERRUM_FILENAME"@) == Some(text_or_blank(job.filename))
            &&& env_value(env, "FERRUM_OUTPUT_PATH"@) == Some(text_or_blank(job.output_path))
            &&& env_value(env, "FERRUM_CATEGORY"@) == Some(text_or_blank(job.category))
        }),
        job.error matches Some(e) ==> env_value(spec_hook_env(job), "FERRUM_ERROR"@) == Some(e@),
{
    let env = spec_hook_env(job);
    reveal_strlit("FERRUM_JOB_ID");
    reveal_strlit("FERRUM_URL");
    reveal_strlit("FERRUM_STATUS");
    reveal_strlit("FERRUM_FILENAME");
    reveal_strlit("FERRUM_OUTPUT_PATH");
    reveal_strlit("FERRUM_SIZE");
    reveal_strlit("FERRUM_CATEGORY");
    reveal_strlit("FERRUM_TAGS");
    reveal_strlit("FERRUM_ERROR");
    // The names looked up differ from every name set after them.
    assert("FERRUM_URL"@.len() != "FERRUM_STATUS"@.len());
    assert("FERRUM_URL"@.len() != "FERRUM_FILENAME"@.len());
    assert("FERRUM_URL"@.len() != "FERRUM_OUTPUT_PATH"@.len());
    assert("FERRUM_URL"@.len() != "FERRUM_SIZE"@.len());
    assert("FERRUM_URL"@.len() != "FERRUM_CATEGORY"@.len());
    assert("FERRUM_URL"@.len() != "FERRUM_TAGS"@.len());
    assert("FERRUM_URL"@.len() != "FERRUM_ERROR"@.len());
    assert("FERRUM_STATUS"@.len() != "FERRUM_FILENAME"@.len());
    assert("FERRUM_STATUS"@.len() != "FERRUM_OUTPUT_PATH"@.len());
    assert("FERRUM_STATUS"@.len() != "FERRUM_SIZE"@.len());
    assert("FERRUM_STATUS"@.len() != "FERRUM_CATEGORY"@.len());
    assert("FERRUM_STATUS"@.len() != "FERRUM_TAGS"@.len());
    assert("FERRUM_STATUS"@.len() != "FERRUM_ERROR"@.len());
    assert("FERRUM_FILENAME"@.len() != "FERRUM_OUTPUT_PATH"@.len());
    assert("FERRUM_FILENAME"@.len() != "FERRUM_SIZE"@.len());
    assert("FERRUM_FILENAME"@[7] != "FERRUM_CATEGORY"@[7]);
    assert("FERRUM_FILENAME"@.len() != "FERRUM_TAGS"@.len());
    assert("FERRUM_FILENAME"@.len() != "FERRUM_ERROR"@.len());
    assert("FERRUM_OUTPUT_PATH"@.len() != "FERRUM_SIZE"@.len());
    assert("FERRUM_OUTPUT_PATH"@.len() != "FERRUM_CATEGORY"@.len());
    assert("FERRUM_OUTPUT_PATH"@.len() != "FERRUM_TAGS"@.len());
    assert("FERRUM_OUTPUT_PATH"@.len() != "FERRUM_ERROR"@.len());
    assert("FERRUM_CATEGORY"@.len() != "FERRUM_TAGS"@.len());
    assert("FERRUM_CATEGORY"@.len() != "FERRUM_ERROR"@.len());
    assert(env.take(9) =~= env);
    lemma_env_value_step(env, 9);
    lemma_env_value_step(env, 8);
    lemma_env_value_step(env, 7);
    lemma_env_value_step(env, 6);
    lemma_env_value_step(env, 5);
    lemma_env_value_step(env, 4);
    lemma_env_value_step(env, 3);
    lemma_env_value_step(env, 2);
    lemma_env_value_step(env, 1);
}

/// Looking a name up among the first `k` entries looks at entry `k - 1`, then
/// among the first `k - 1`.
proof fn lemma_env_value_step(env: Seq<(Seq<char>, Seq<char>)>, k: int)
    requires
        0 < k <= env.len(),
    ensures
        forall|name: Seq<char>|
            #[trigger] env_value(env.take(k), name) == if env[k - 1].0 == name {
                Some(env[k - 1].1)
            } else {
                env_value(env.take(k - 1), name)
            },
{
    assert(env.take(k).drop_last() =~= env.take(k - 1));
}

/// The program and arguments that run a hook script: `sh -c <script>`.
pub fn hook_command(script: &str) -> (r: (String, Vec<String>))
    ensures
        r.0@ == "sh"@,
        views(r.1@) == seq!["-c"@, script@],
{
    let mut args: Vec<String> = Vec::new();
    args.push(owned("-c"));
    args.push(owned(script));
    assert(views(args@) =~= seq!["-c"@, script@]);
    (owned("sh"), args)
}

} // verus!

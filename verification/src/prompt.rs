//! The uniform result of reading one entity, and the text it becomes in the
//! prompt.

use crate::context::AppContext;
use crate::datasource::cloudwatch_log_insight::{CloudwatchLogsClient, Pause};
use crate::datasource::cloudwatch_metric::CloudwatchClient;
use crate::datasource::ds::{fits, is_reading_of, may_fail_with, Clients, DataSource};
use crate::datasource::ec2::Ec2Client;
use crate::datasource::rds::RdsClient;
use crate::error::FetchError;
use crate::text::{join, joined, texts};
use vstd::prelude::*;
use vstd::string::StringExecFns;

verus! {

/// What one resolved entity contributes: lines that describe it and, for
/// sources that carry a table, the table as text.
#[derive(Debug)]
pub struct PromptData {
    pub description: Vec<String>,
    pub data: Option<String>,
}

/// Something that shows how far the reading of the sources has come.
pub trait Progress {
    /// A source of the kind called `name` is about to be read.
    fn reading(&self, name: &str);

    /// One more source has been read.
    fn advance(&self);

    /// Every source has been read.
    fn finish(&self);
}

/// Whether `block` carries exactly these description lines and this table.
pub open spec fn carries(block: PromptData, description: Seq<Seq<char>>, data: Option<Seq<char>>) -> bool {
    &&& texts(block.description@) == description
    &&& match data {
        Some(t) => (block.data matches Some(s) && s@ == t),
        None => block.data is None,
    }
}

/// The lines of the fixed instruction that precedes every prompt.
pub open spec fn instruction_lines() -> Seq<Seq<char>> {
    seq![
        "You are an AWS diagnostic assistant."@,
        "Include timestamps from important data, if necessary."@,
        "Add visual elements such as graphs and tables drawn with ascii characters, if necessary"@,
        "Format your response in Markdown."@,
        "Keep your report concise by including only critical areas."@,
        "Perform a diagnosis using the provided information below:"@,
    ]
}

/// The fenced table of a block, or nothing where the entity carries none.
pub open spec fn data_text(data: Option<String>) -> Seq<char> {
    match data {
        Some(d) => "Data:\n"@ + "```\n"@ + d@ + "```\n"@,
        None => Seq::empty(),
    }
}

/// One block of the prompt: the description lines, one per line, the fenced
/// table if there is one, and an empty line that closes the block.
pub open spec fn block_text(block: PromptData) -> Seq<char> {
    joined(texts(block.description@), "\n"@) + "\n"@ + data_text(block.data) + "\n"@
}

/// The blocks of a prompt, one after the other.
pub open spec fn prompt_text(blocks: Seq<PromptData>) -> Seq<char>
    decreases blocks.len(),
{
    if blocks.len() == 0 {
        Seq::empty()
    } else {
        prompt_text(blocks.drop_last()) + block_text(blocks.last())
    }
}

/// The instruction handed to the language model ahead of the prompt.
pub fn build_instruction() -> (r: String)
    ensures
        r@ == joined(instruction_lines(), "\n"@),
{
    let mut lines: Vec<String> = Vec::new();
    lines.push(String::from_str("You are an AWS diagnostic assistant."));
    lines.push(String::from_str("Include timestamps from important data, if necessary."));
    lines.push(
        String::from_str(
            "Add visual elements such as graphs and tables drawn with ascii characters, if necessary",
        ),
    );
    lines.push(String::from_str("Format your response in Markdown."));
    lines.push(String::from_str("Keep your report concise by including only critical areas."));
    lines.push(String::from_str("Perform a diagnosis using the provided information below:"));
    assert(texts(lines@) == instruction_lines());
    join(&lines, "\n")
}

/// Appends the block of `block` to `prompt`.
pub fn append_block(prompt: &mut String, block: &PromptData)
    ensures
        final(prompt)@ == old(prompt)@ + block_text(*block),
{
    let lines = join(&block.description, "\n");
    prompt.append(lines.as_str());
    prompt.append("\n");
    match &block.data {
        Some(data) => {
            prompt.append("Data:\n");
            prompt.append("```\n");
            prompt.append(data.as_str());
            prompt.append("```\n");
        },
        None => {},
    }
    prompt.append("\n");
    assert(final(prompt)@ == old(prompt)@ + block_text(*block)) by {
        let d = joined(texts(block.description@), "\n"@);
        match block.data {
            Some(data) => {
                assert(old(prompt)@ + d + "\n"@ + "Data:\n"@ + "```\n"@ + data@ + "```\n"@ + "\n"@
                    == old(prompt)@ + (d + "\n"@ + ("Data:\n"@ + "```\n"@ + data@ + "```\n"@)
                    + "\n"@));
            },
            None => {
                assert(old(prompt)@ + d + "\n"@ + "\n"@ == old(prompt)@ + (d + "\n"@
                    + Seq::<char>::empty() + "\n"@));
            },
        }
    }
}

/// Appends the blocks of `blocks` to `prompt`, in their order.
pub fn append_blocks(prompt: &mut String, blocks: &Vec<PromptData>)
    ensures
        final(prompt)@ == old(prompt)@ + prompt_text(blocks@),
{
    let mut i: usize = 0;
    while i < blocks.len()
        invariant
            i <= blocks.len(),
            prompt@ == old(prompt)@ + prompt_text(blocks@.take(i as int)),
        decreases blocks.len() - i,
    {
        let ghost next = blocks@.take(i + 1);
        assert(next.drop_last() == blocks@.take(i as int));
        append_block(prompt, &blocks[i]);
        assert(prompt@ == old(prompt)@ + prompt_text(next)) by {
            assert(old(prompt)@ + prompt_text(next.drop_last()) + block_text(next.last())
                == old(prompt)@ + (prompt_text(next.drop_last()) + block_text(next.last())));
        }
        i += 1;
    }
    assert(blocks@.take(blocks.len() as int) == blocks@);
}

/// The blocks of several groups, group after group.
pub open spec fn groups_text(groups: Seq<Seq<PromptData>>) -> Seq<char>
    decreases groups.len(),
{
    if groups.len() == 0 {
        Seq::empty()
    } else {
        groups_text(groups.drop_last()) + prompt_text(groups.last())
    }
}

/// Whether `groups` are what reading `sources` one after the other gives:
/// one group for each source, in the order of the sources, each a reading
/// of its source that fits it.
pub open spec fn answers(sources: Seq<DataSource>, zone: Seq<char>, groups: Seq<Seq<PromptData>>)
    -> bool {
    &&& groups.len() == sources.len()
    &&& forall|i: int|
        0 <= i < groups.len() ==> is_reading_of(sources[i], zone, #[trigger] groups[i]) && fits(
            sources[i],
            groups[i],
        )
}

/// Whether no source needs a service to be read.
pub open spec fn needs_no_service(sources: Seq<DataSource>) -> bool {
    forall|i: int| 0 <= i < sources.len() ==> (#[trigger] sources[i]) is AppDescription
}

/// The reading of an application description comes to one text in the
/// prompt: the fixed header, the configured description, and the empty line
/// that closes the block.
pub proof fn lemma_app_description_text(
    config: crate::config::AppDescConfig,
    zone: Seq<char>,
    group: Seq<PromptData>,
)
    requires
        is_reading_of(DataSource::AppDescription { config }, zone, group),
    ensures
        prompt_text(group) == "Information: [App Description]"@ + "\n"@ + config.description@
            + "\n"@ + "\n"@,
{
    reveal_with_fuel(prompt_text, 2);
    reveal_with_fuel(joined, 3);
    let lines = texts(group[0].description@);
    assert(lines.drop_last().len() == 1);
    assert(lines.drop_last()[0] == lines[0]);
    assert(group.drop_last().len() == 0);
    assert(data_text(group[0].data) == Seq::<char>::empty());
}

/// Reads the data sources of a run in their order and assembles the prompt:
/// the blocks of the first source, then those of the second, and so on,
/// telling `progress` of each source before and after it is read. The first
/// source that cannot be read ends the reading, and nothing of the prompt is
/// kept, and the error is one that a source of the run can fail with. Where
/// no source needs a service, the prompt always comes back. Whatever the
/// services answer, a prompt that comes back is the text of the readings of
/// the sources, source after source.
pub fn build_prompt_data<
    E: Ec2Client,
    R: RdsClient,
    M: CloudwatchClient,
    L: CloudwatchLogsClient,
    P: Pause,
    G: Progress,
>(context: &AppContext, clients: &Clients<E, R, M, L, P>, progress: &G) -> (r: Result<
    String,
    FetchError,
>)
    ensures
        needs_no_service(context.data_sources@) ==> r is Ok,
        r matches Ok(prompt) ==> exists|groups: Seq<Seq<PromptData>>|
            answers(context.data_sources@, context.range.time_zone@, groups) && prompt@
                == #[trigger] groups_text(groups),
        r matches Err(e) ==> exists|i: int|
            0 <= i < context.data_sources@.len() && may_fail_with(
                #[trigger] context.data_sources@[i],
                e,
            ),
        context.data_sources@.len() == 0 ==> (r matches Ok(prompt) && prompt@
            == Seq::<char>::empty()),
{
    let mut prompt = String::new();
    let ghost mut groups: Seq<Seq<PromptData>> = Seq::empty();
    let mut i: usize = 0;
    while i < context.data_sources.len()
        invariant
            i <= context.data_sources.len(),
            answers(context.data_sources@.take(i as int), context.range.time_zone@, groups),
            prompt@ == groups_text(groups),
        decreases context.data_sources.len() - i,
    {
        let source = &context.data_sources[i];
        progress.reading(source.display_name().as_str());
        match source.fetch_data(clients, context) {
            Ok(blocks) => {
                append_blocks(&mut prompt, &blocks);
                proof {
                    assert(groups.push(blocks@).drop_last() == groups);
                    groups = groups.push(blocks@);
                }
            },
            Err(e) => {
                return Err(e);
            },
        }
        progress.advance();
        i += 1;
    }
    progress.finish();
    Ok(prompt)
}

} // verus!

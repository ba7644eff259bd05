//! Construction of the text handed to the embedding provider.
//!
//! The exact shape of this text affects embedding quality, so it is pinned
//! down character for character: an identity line, a description line, a
//! topics line, an owner line, and the auxiliary content truncated to a
//! fixed number of Unicode scalar values.

use vstd::prelude::*;
use vstd::string::StrSliceExecFns;
use vstd::string::StringExecFns;

use crate::types::Repository;
use crate::README_TRUNCATION_LIMIT;

verus! {

/// Auxiliary text after truncation: unchanged when it fits, otherwise its
/// first `README_TRUNCATION_LIMIT` characters followed by a literal ellipsis.
pub open spec fn truncated_readme_spec(s: Seq<char>) -> Seq<char> {
    if s.len() > README_TRUNCATION_LIMIT {
        s.subrange(0, README_TRUNCATION_LIMIT as int) + "..."@
    } else {
        s
    }
}

/// Truncate auxiliary content for embedding, counting Unicode scalar values.
pub fn truncate_readme(readme: &str) -> (r: String)
    ensures
        r@ == truncated_readme_spec(readme@),
{
    let n = readme.unicode_len();
    if n > README_TRUNCATION_LIMIT {
        let t = readme.substring_char(0, README_TRUNCATION_LIMIT);
        let mut s = t.to_owned();
        s.append("...");
        s
    } else {
        readme.to_owned()
    }
}

/// An optional text, with the literal placeholder used when it is absent.
pub open spec fn option_text(o: Option<String>) -> Seq<char> {
    match o {
        Some(s) => s@,
        None => "None"@,
    }
}

/// The topics joined with a comma and a space.
pub open spec fn joined_topics(ts: Seq<String>) -> Seq<char>
    decreases ts.len(),
{
    if ts.len() == 0 {
        Seq::empty()
    } else if ts.len() == 1 {
        ts[0]@
    } else {
        joined_topics(ts.drop_last()) + ", "@ + ts.last()@
    }
}

/// The topics line: comma-joined, with the literal placeholder when empty.
pub open spec fn topics_text(ts: Seq<String>) -> Seq<char> {
    if ts.len() == 0 {
        "None"@
    } else {
        joined_topics(ts)
    }
}

/// The auxiliary-content block: truncated content, or the placeholder when
/// no content was found.
pub open spec fn readme_text(o: Option<String>) -> Seq<char> {
    match o {
        Some(s) => truncated_readme_spec(s@),
        None => "None"@,
    }
}

/// The full text handed to the embedding provider for one item.
pub open spec fn embedding_text_spec(repo: Repository) -> Seq<char> {
    "\n# Key Information\nRepository name: "@ + repo.owner@ + "/"@ + repo.name@
        + "\nDescription: "@ + option_text(repo.description) + "\nTopics: "@ + topics_text(
        repo.topics@,
    ) + "\nOwner: "@ + repo.owner@ + "\n\n# README Content\n"@ + readme_text(repo.readme_content)
        + "\n"@
}

/// Build the embedding text for one item, exactly as
/// [`embedding_text_spec`] describes it.
pub fn repo_to_embedding_text(repo: &Repository) -> (r: String)
    ensures
        r@ == embedding_text_spec(*repo),
{
    let mut s = "\n# Key Information\nRepository name: ".to_owned();
    s.append(repo.owner.as_str());
    s.append("/");
    s.append(repo.name.as_str());
    s.append("\nDescription: ");
    match &repo.description {
        Some(d) => s.append(d.as_str()),
        None => s.append("None"),
    }
    s.append("\nTopics: ");
    if repo.topics.len() == 0 {
        s.append("None");
    } else {
        let ghost base = s@;
        let mut i: usize = 0;
        while i < repo.topics.len()
            invariant
                0 < repo.topics@.len(),
                i <= repo.topics@.len(),
                s@ == if i == 0 {
                    base
                } else {
                    base + joined_topics(repo.topics@.take(i as int))
                },
            decreases repo.topics@.len() - i,
        {
            if i > 0 {
                s.append(", ");
            }
            s.append(repo.topics[i].as_str());
            proof {
                let next = repo.topics@.take(i + 1);
                assert(next.drop_last() =~= repo.topics@.take(i as int));
                assert(next.last() == repo.topics@[i as int]);
                if i == 0 {
                    assert(s@ == base + joined_topics(next));
                }
            }
            i += 1;
        }
        proof {
            assert(repo.topics@.take(repo.topics@.len() as int) =~= repo.topics@);
        }
    }
    s.append("\nOwner: ");
    s.append(repo.owner.as_str());
    s.append("\n\n# README Content\n");
    match &repo.readme_content {
        Some(content) => {
            let t = truncate_readme(content.as_str());
            s.append(t.as_str());
        },
        None => s.append("None"),
    }
    s.append("\n");
    s
}

} // verus!

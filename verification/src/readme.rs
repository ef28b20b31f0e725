//! Placing the program's help text into the project's readme, between two markers.

use vstd::pervasive::unreached;
use vstd::prelude::*;
use vstd::string::StringExecFns;
use vstd::string::StringSliceAdditionalSpecFns;
use vstd::utf8::{
    decode_utf8, encode_utf8, encode_utf8_decode_utf8, encode_utf8_valid_utf8, is_char_boundary,
    is_char_boundary_iff_not_is_continuation_byte, is_char_boundary_start_end_of_seq,
    length_of_first_scalar, pop_first_scalar, valid_first_scalar, valid_utf8, valid_utf8_split,
};

verus! {

/// The pattern stands in the text at `at`.
pub open spec fn occurs_at(text: Seq<u8>, pattern: Seq<u8>, at: int) -> bool {
    &&& 0 <= at
    &&& at + pattern.len() <= text.len()
    &&& text.subrange(at, at + pattern.len()) == pattern
}

/// The pattern stands in the text at `at`, and nowhere before.
pub open spec fn occurs_first_at(text: Seq<u8>, pattern: Seq<u8>, at: int) -> bool {
    &&& occurs_at(text, pattern, at)
    &&& forall|before: int| 0 <= before < at ==> !occurs_at(text, pattern, before)
}

/// The pattern stands somewhere in the text.
pub open spec fn occurs(text: Seq<u8>, pattern: Seq<u8>) -> bool {
    exists|at: int| occurs_at(text, pattern, at)
}

/// Where the pattern stands first in the text.
pub open spec fn first_occurrence(text: Seq<u8>, pattern: Seq<u8>) -> int {
    choose|at: int| occurs_first_at(text, pattern, at)
}

/// The lines that stand before the help text.
pub open spec fn help_opening() -> Seq<char> {
    "\n<!-- This content is autogenerated and should not be manually changed. -->"@
        + "\n<!-- To update this section, run `make`. -->"@ + "\n```\n"@
}

/// The readme with the help text in place of what stood between `begin` and `end`: the
/// readme up to `begin`, the opening lines, the help text, the closing fence, and the readme
/// from `end` on.
pub open spec fn readme_with_help(readme: Seq<u8>, begin: int, help: Seq<char>, end: int) -> Seq<
    char,
> {
    decode_utf8(readme.subrange(0, begin)) + help_opening() + help + "```\n"@ + decode_utf8(
        readme.subrange(end, readme.len() as int),
    )
}

/// Finds where a pattern stands first in a text with `std`'s `str::find`.
///
/// Not proved: that the outside function gives the byte index of the first place at which
/// the pattern stands in the text, and nothing where it stands nowhere.
#[verifier::external_body]
pub(crate) fn find_text(text: &str, pattern: &str) -> (found: Option<usize>)
    ensures
        match found {
            Some(at) => occurs_first_at(text.spec_bytes(), pattern.spec_bytes(), at as int),
            None => !occurs(text.spec_bytes(), pattern.spec_bytes()),
        },
{
    text.find(pattern)
}

/// A pattern stands first at one place only.
pub proof fn lemma_first_occurrence_unique(text: Seq<u8>, pattern: Seq<u8>, at: int)
    requires
        occurs_first_at(text, pattern, at),
    ensures
        occurs(text, pattern),
        first_occurrence(text, pattern) == at,
{
    let chosen = first_occurrence(text, pattern);
    assert(occurs_first_at(text, pattern, chosen));
    if chosen < at {
        assert(!occurs_at(text, pattern, chosen));
    }
    if at < chosen {
        assert(!occurs_at(text, pattern, at));
    }
}

/// A well-formed text that starts with a well-formed text has a character boundary where
/// that one ends.
proof fn lemma_boundary_behind_prefix(text: Seq<u8>, prefix: Seq<u8>)
    requires
        valid_utf8(text),
        valid_utf8(prefix),
        occurs_at(text, prefix, 0),
    ensures
        is_char_boundary(text, prefix.len() as int),
    decreases prefix.len(),
{
    if prefix.len() > 0 {
        assert(text.subrange(0, prefix.len() as int)[0] == text[0]);
        assert(valid_first_scalar(prefix));
        let width = length_of_first_scalar(prefix);
        assert(length_of_first_scalar(text) == width);
        let rest = pop_first_scalar(text);
        let prefix_rest = pop_first_scalar(prefix);
        assert(valid_utf8(rest));
        assert(valid_utf8(prefix_rest));
        assert(rest.subrange(0, prefix_rest.len() as int) =~= prefix_rest) by {
            assert forall|i: int| 0 <= i < prefix_rest.len() implies rest[i] == prefix_rest[i] by {
                assert(text.subrange(0, prefix.len() as int)[i + width] == text[i + width]);
            }
        }
        lemma_boundary_behind_prefix(rest, prefix_rest);
    }
}

/// Where a well-formed pattern stands first in a well-formed text, it starts and ends at
/// character boundaries.
pub proof fn lemma_occurrence_within_boundaries(text: Seq<u8>, pattern: Seq<u8>, at: int)
    requires
        valid_utf8(text),
        valid_utf8(pattern),
        occurs_first_at(text, pattern, at),
    ensures
        is_char_boundary(text, at),
        is_char_boundary(text, at + pattern.len()),
{
    is_char_boundary_start_end_of_seq(text);
    is_char_boundary_start_end_of_seq(pattern);
    if pattern.len() == 0 {
        // an empty pattern stands at the very start
        assert(text.subrange(0, 0) =~= pattern);
        assert(occurs_at(text, pattern, 0));
    } else {
        assert(text.subrange(at, at + pattern.len())[0] == text[at]);
        is_char_boundary_iff_not_is_continuation_byte(pattern, 0);
        is_char_boundary_iff_not_is_continuation_byte(text, at);
        let tail = text.subrange(at, text.len() as int);
        valid_utf8_split(text, at);
        assert(tail.subrange(0, pattern.len() as int) =~= pattern);
        lemma_boundary_behind_prefix(tail, pattern);
        if at + pattern.len() < text.len() {
            is_char_boundary_iff_not_is_continuation_byte(tail, pattern.len() as int);
            is_char_boundary_iff_not_is_continuation_byte(text, at + pattern.len());
        }
    }
}

/// Puts the help text into the readme in place of what stands between two positions.
pub fn create_readme_text_with_inlined_help(
    readme: String,
    begin_index: usize,
    help_text: String,
    end_index: usize,
) -> (new_readme: String)
    requires
        is_char_boundary(encode_utf8(readme@), begin_index as int),
        is_char_boundary(encode_utf8(readme@), end_index as int),
    ensures
        new_readme@ == readme_with_help(
            encode_utf8(readme@),
            begin_index as int,
            help_text@,
            end_index as int,
        ),
{
    let text = readme.as_str();
    let (head, _) = text.split_at(begin_index);
    let (_, tail) = text.split_at(end_index);
    proof {
        encode_utf8_decode_utf8(head@);
        encode_utf8_decode_utf8(tail@);
    }
    let opened = String::from_str(head).concat(
        "\n<!-- This content is autogenerated and should not be manually changed. -->",
    ).concat("\n<!-- To update this section, run `make`. -->").concat("\n```\n");
    opened.concat(help_text.as_str()).concat("```\n").concat(tail)
}

/// Whether the marker stands in the readme.
pub fn has_marker(readme: &str, marker: &str) -> (present: bool)
    ensures
        present == occurs(readme.spec_bytes(), marker.spec_bytes()),
{
    match find_text(readme, marker) {
        Some(_) => true,
        None => false,
    }
}

/// Puts the help text into the readme between the two markers: behind the first place of
/// the first marker, and before the first place of the second.
pub fn updated_readme_content(
    readme: String,
    begin_marker: &str,
    help_text: String,
    end_marker: &str,
) -> (new_readme: String)
    requires
        occurs(encode_utf8(readme@), begin_marker.spec_bytes()),
        occurs(encode_utf8(readme@), end_marker.spec_bytes()),
    ensures
        new_readme@ == readme_with_help(
            encode_utf8(readme@),
            first_occurrence(encode_utf8(readme@), begin_marker.spec_bytes())
                + begin_marker.spec_bytes().len(),
            help_text@,
            first_occurrence(encode_utf8(readme@), end_marker.spec_bytes()),
        ),
{
    let begin_at = match find_text(readme.as_str(), begin_marker) {
        Some(at) => at,
        None => unreached(),
    };
    let end_index = match find_text(readme.as_str(), end_marker) {
        Some(at) => at,
        None => unreached(),
    };
    proof {
        let bytes = encode_utf8(readme@);
        encode_utf8_valid_utf8(readme@);
        encode_utf8_valid_utf8(begin_marker@);
        encode_utf8_valid_utf8(end_marker@);
        lemma_first_occurrence_unique(bytes, begin_marker.spec_bytes(), begin_at as int);
        lemma_first_occurrence_unique(bytes, end_marker.spec_bytes(), end_index as int);
        lemma_occurrence_within_boundaries(bytes, begin_marker.spec_bytes(), begin_at as int);
        lemma_occurrence_within_boundaries(bytes, end_marker.spec_bytes(), end_index as int);
    }
    // the marker lies within the readme, so the position behind it is no larger than the
    // readme's length
    let readme_len: usize = readme.as_str().as_bytes().len();
    let marker_len: usize = begin_marker.as_bytes().len();
    assert(begin_at + marker_len <= readme_len);
    let begin_index = begin_at + marker_len;
    create_readme_text_with_inlined_help(readme, begin_index, help_text, end_index)
}

} // verus!

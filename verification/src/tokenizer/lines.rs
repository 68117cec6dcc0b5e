//! The lines of a script, and the script without its comment lines.

use crate::model::{lemma_views_push, views};
use crate::tokenizer::scan::{
    code_lines, is_code, is_comment, join_lines, lemma_run_len_split, lines_from, run_len, Run,
};
use vstd::prelude::*;

verus! {

/// Splits a script into its lines and keeps those that are no comments.
pub fn split_code_lines(script: &Vec<char>) -> (kept: Vec<Vec<char>>)
    ensures
        views(kept@) == code_lines(script@),
{
    let ghost text = script@;
    let ghost mut done: Seq<Seq<char>> = Seq::empty();
    let ghost mut line_begin: int = 0;
    let mut kept: Vec<Vec<char>> = Vec::new();
    let mut line: Vec<char> = Vec::new();
    let mut index: usize = 0;
    proof {
        reveal(Seq::filter);
        assert(done + lines_from(text, 0) == lines_from(text, 0));
        assert(views(kept@) == done.filter(is_code()));
    }
    while index < script.len()
        invariant
            text == script@,
            0 <= line_begin <= index <= text.len(),
            line@ == text.subrange(line_begin, index as int),
            forall|i: int| line_begin <= i < index ==> Run::Line.admits(#[trigger] text[i]),
            done + lines_from(text, line_begin) == lines_from(text, 0),
            views(kept@) == done.filter(is_code()),
        decreases text.len() - index,
    {
        let character = script[index];
        if character == '\n' {
            proof {
                lemma_run_len_split(text, line_begin, index as int, Run::Line);
                assert(run_len(text, index as int, Run::Line) == 0);
                assert(lines_from(text, line_begin) == seq![line@] + lines_from(text, index + 1));
                lemma_filter_push(done, line@);
                lemma_views_push(kept@, line);
                assert(done.push(line@) + lines_from(text, index + 1) == done + lines_from(
                    text,
                    line_begin,
                ));
                done = done.push(line@);
                line_begin = index + 1;
            }
            if !is_comment_line(&line) {
                kept.push(line);
            }
            line = Vec::new();
        } else {
            line.push(character);
        }
        index += 1;
        assert(line@ == text.subrange(line_begin, index as int));
    }
    proof {
        lemma_run_len_split(text, line_begin, index as int, Run::Line);
        assert(run_len(text, index as int, Run::Line) == 0);
        assert(lines_from(text, line_begin) == seq![line@]);
        lemma_filter_push(done, line@);
        lemma_views_push(kept@, line);
        assert(done.push(line@) == done + lines_from(text, line_begin));
    }
    if !is_comment_line(&line) {
        kept.push(line);
    }
    kept
}

/// Filtering a sequence with one more item keeps what was kept, and the item if it
/// passes.
proof fn lemma_filter_push(lines: Seq<Seq<char>>, line: Seq<char>)
    ensures
        lines.push(line).filter(is_code()) == if is_comment(line) {
            lines.filter(is_code())
        } else {
            lines.filter(is_code()).push(line)
        },
{
    reveal(Seq::filter);
    assert(lines.push(line).drop_last() == lines);
}

/// Whether a line is a comment.
pub fn is_comment_line(line: &Vec<char>) -> (comment: bool)
    ensures
        comment == is_comment(line@),
{
    line.len() > 0 && line[0] == '#'
}

/// Puts lines together, with a line feed between each two.
pub fn join_code_lines(lines: &Vec<Vec<char>>) -> (text: Vec<char>)
    ensures
        text@ == join_lines(views(lines@)),
{
    let ghost all = views(lines@);
    let mut text: Vec<char> = Vec::new();
    let mut index: usize = 0;
    while index < lines.len()
        invariant
            all == views(lines@),
            index <= lines.len(),
            text@ == join_lines(all.take(index as int)),
        decreases lines.len() - index,
    {
        let line = &lines[index];
        assert(all.take(index + 1).drop_last() == all.take(index as int));
        assert(all.take(index + 1).last() == line@);
        if index > 0 {
            text.push('\n');
        }
        let ghost prefix = text@;
        let mut column: usize = 0;
        while column < line.len()
            invariant
                column <= line.len(),
                text@ == prefix + line@.take(column as int),
            decreases line.len() - column,
        {
            text.push(line[column]);
            column += 1;
            assert(text@ == prefix + line@.take(column as int));
        }
        assert(line@.take(column as int) == line@);
        index += 1;
        assert(text@ == join_lines(all.take(index as int))) by {
            if index == 1 {
                assert(prefix + line@ == line@);
            }
        }
    }
    assert(all.take(index as int) == all);
    text
}

} // verus!

//! Naming helpers: case conversion and path sanitising.
use vstd::prelude::*;
use crate::text::{
    char_is_uppercase, char_to_lowercase, char_to_uppercase, chars_of, is_upper_char,
    lower_char, string_of, trim_end_chars, trim_end_of, trim_start_chars,
    trim_start_of, upper_char,
};

verus! {

/// snake_case of a CamelCase name: each upper-case character is lowered and,
/// unless it starts the output or follows a `_`, preceded by a `_`.
pub open spec fn camel_to_snake_spec(s: Seq<char>) -> Seq<char>
    decreases s.len(),
{
    if s.len() == 0 {
        seq![]
    } else {
        let prev = camel_to_snake_spec(s.drop_last());
        let c = s.last();
        if is_upper_char(c) {
            if prev.len() > 0 && prev.last() != '_' {
                prev.push('_').push(lower_char(c))
            } else {
                prev.push(lower_char(c))
            }
        } else {
            prev.push(c)
        }
    }
}

/// CamelCase of a snake_case name: every `_` is dropped, and the first
/// character and each character after a `_` are raised.
pub open spec fn snake_to_camel_spec(s: Seq<char>) -> Seq<char>
    decreases s.len(),
{
    if s.len() == 0 {
        seq![]
    } else {
        let prev = snake_to_camel_spec(s.drop_last());
        let c = s.last();
        if c == '_' {
            prev
        } else if s.len() == 1 || s[s.len() - 2] == '_' {
            prev.push(upper_char(c))
        } else {
            prev.push(c)
        }
    }
}

/// What one character of a path becomes in a file name.
pub open spec fn filename_char(c: char) -> Seq<char> {
    if c == '/' || c == '\\' {
        seq!['_']
    } else if c == '{' || c == '}' || c == ':' {
        seq![]
    } else {
        seq![c]
    }
}

/// A path with each character replaced as `filename_char` says.
pub open spec fn filename_chars(s: Seq<char>) -> Seq<char>
    decreases s.len(),
{
    if s.len() == 0 {
        seq![]
    } else {
        filename_chars(s.drop_last()) + filename_char(s.last())
    }
}

/// A path turned into a file name: separators become `_`, braces and
/// colons go, and underscores at either end are trimmed.
pub open spec fn sanitize_for_filename_spec(s: Seq<char>) -> Seq<char> {
    trim_start_of(trim_end_of(filename_chars(s), '_'), '_')
}

/// Converts CamelCase to snake_case.
pub fn camel_to_snake(camel: &str) -> (r: String)
    ensures
        r@ == camel_to_snake_spec(camel@),
{
    let cs = chars_of(camel);
    let mut snake: Vec<char> = Vec::new();
    let mut i: usize = 0;
    while i < cs.len()
        invariant
            i <= cs.len(),
            cs@ == camel@,
            snake@ == camel_to_snake_spec(cs@.take(i as int)),
        decreases cs.len() - i,
    {
        let c = cs[i];
        assert(cs@.take(i + 1).drop_last() =~= cs@.take(i as int));
        if char_is_uppercase(c) {
            if snake.len() > 0 && snake[snake.len() - 1] != '_' {
                snake.push('_');
            }
            snake.push(char_to_lowercase(c));
        } else {
            snake.push(c);
        }
        i = i + 1;
    }
    assert(cs@.take(i as int) =~= camel@);
    string_of(&snake)
}

/// Converts snake_case to CamelCase.
pub fn snake_to_camel(snake: &str) -> (r: String)
    ensures
        r@ == snake_to_camel_spec(snake@),
{
    let cs = chars_of(snake);
    let mut camel: Vec<char> = Vec::new();
    let mut capitalize_next = true;
    let mut i: usize = 0;
    while i < cs.len()
        invariant
            i <= cs.len(),
            cs@ == snake@,
            camel@ == snake_to_camel_spec(cs@.take(i as int)),
            capitalize_next == (i == 0 || cs@[i - 1] == '_'),
        decreases cs.len() - i,
    {
        let c = cs[i];
        assert(cs@.take(i + 1).drop_last() =~= cs@.take(i as int));
        if c == '_' {
            capitalize_next = true;
        } else if capitalize_next {
            camel.push(char_to_uppercase(c));
            capitalize_next = false;
        } else {
            camel.push(c);
        }
        i = i + 1;
    }
    assert(cs@.take(i as int) =~= snake@);
    string_of(&camel)
}

/// Sanitizes a path segment for use in file names.
pub fn sanitize_path_for_filename(path: &str) -> (r: String)
    ensures
        r@ == sanitize_for_filename_spec(path@),
{
    let cs = chars_of(path);
    let mut out: Vec<char> = Vec::new();
    let mut i: usize = 0;
    while i < cs.len()
        invariant
            i <= cs.len(),
            cs@ == path@,
            out@ == filename_chars(cs@.take(i as int)),
        decreases cs.len() - i,
    {
        let c = cs[i];
        assert(cs@.take(i + 1).drop_last() =~= cs@.take(i as int));
        if c == '/' || c == '\\' {
            out.push('_');
        } else if c == '{' || c == '}' || c == ':' {
        } else {
            out.push(c);
        }
        i = i + 1;
        assert(out@ =~= filename_chars(cs@.take(i as int)));
    }
    assert(cs@.take(i as int) =~= path@);
    let trimmed = trim_start_chars(&trim_end_chars(&out, '_'), '_');
    string_of(&trimmed)
}

} // verus!

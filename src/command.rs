use vstd::prelude::*;
use vstd::string::*;

use crate::loc::Loc;

verus! {

/// One step that a driver can ask of a cursor.
pub enum Command<T> {
    SetValue(T),
    Left,
    Right,
    Up,
}

/// Whether `w` is one of the two names `short` and `long` of a move.
pub open spec fn names(w: Seq<char>, short: Seq<char>, long: Seq<char>) -> bool {
    w == short || w == long
}

impl Command<String> {
    /// Reads a command from the words of one input line: `set <value>`,
    /// `left` or `l`, `right` or `r`, `up` or `u`. Anything else is `None`.
    pub fn parse(words: &Vec<String>) -> (r: Option<Command<String>>)
        ensures
            (r is Some && r->0 is SetValue) <==> (words.len() == 2 && words[0]@ == "set"@),
            (r is Some && r->0 is SetValue) ==> r->0->SetValue_0@ == words[1]@,
            (r == Some(Command::<String>::Left)) <==> (words.len() == 1 && names(
                words[0]@,
                "l"@,
                "left"@,
            )),
            (r == Some(Command::<String>::Right)) <==> (words.len() == 1 && names(
                words[0]@,
                "r"@,
                "right"@,
            )),
            (r == Some(Command::<String>::Up)) <==> (words.len() == 1 && names(
                words[0]@,
                "u"@,
                "up"@,
            )),
    {
        proof {
            reveal_strlit("l");
            reveal_strlit("left");
            reveal_strlit("r");
            reveal_strlit("right");
            reveal_strlit("u");
            reveal_strlit("up");
            assert("l"@[0] != "r"@[0] && "l"@[0] != "u"@[0] && "r"@[0] != "u"@[0]);
            assert("left"@[0] != "right"@[0] && "left"@[0] != "up"@[0] && "right"@[0] != "up"@[0]);
        }
        if words.len() == 2 {
            if words[0] == String::from_str("set") {
                return Some(Command::SetValue(words[1].clone()));
            }
        } else if words.len() == 1 {
            let w = &words[0];
            if *w == String::from_str("l") || *w == String::from_str("left") {
                return Some(Command::Left);
            }
            if *w == String::from_str("r") || *w == String::from_str("right") {
                return Some(Command::Right);
            }
            if *w == String::from_str("u") || *w == String::from_str("up") {
                return Some(Command::Up);
            }
        }
        None
    }
}

impl<T> Loc<T> {
    /// The cursor after `cmd`: a move that cannot be made leaves the cursor
    /// as it was.
    pub open spec fn step(self, cmd: Command<T>) -> Loc<T> {
        match cmd {
            Command::SetValue(v) => self.set_value(v),
            Command::Left => match self.descend_left() {
                Some(l) => l,
                None => self,
            },
            Command::Right => match self.descend_right() {
                Some(l) => l,
                None => self,
            },
            Command::Up => match self.ascend() {
                Some(l) => l,
                None => self,
            },
        }
    }

    /// Carries out `cmd` on this cursor.
    pub fn apply(&self, cmd: Command<T>) -> (r: Loc<T>)
        ensures
            r == self.step(cmd),
    {
        let next = match cmd {
            Command::SetValue(v) => Some(self.set(v)),
            Command::Left => self.left(),
            Command::Right => self.right(),
            Command::Up => self.up(),
        };
        match next {
            Some(l) => l,
            None => self.clone(),
        }
    }
}

} // verus!

//! What the greeter does at startup and on every frame.
//!
//! Each function computes what is to be spawned or printed and leaves the
//! spawning and printing to the caller.

use crate::greet_timer::GreetTimer;
use vstd::prelude::*;

verus! {

/// The texts of a list of strings.
pub open spec fn texts(strings: Seq<String>) -> Seq<Seq<char>> {
    strings.map_values(|s: String| s@)
}

/// The names of the people who are there from the start.
pub open spec fn first_people() -> Seq<Seq<char>> {
    seq!["Elaina Proctor"@, "Harvey Specter"@]
}

/// The line that welcomes the person called `name`.
pub open spec fn welcome_text(name: Seq<char>) -> Seq<char> {
    "Welcome Ranger "@ + name + "!"@
}

/// The lines that welcome the people called `names`, one each, in order.
pub open spec fn welcome_texts(names: Seq<Seq<char>>) -> Seq<Seq<char>> {
    names.map_values(|name: Seq<char>| welcome_text(name))
}

/// Startup: adds the first people to `people`, after whoever is there.
pub fn add_people(people: &mut Vec<String>)
    ensures
        texts(final(people)@) == texts(old(people)@) + first_people(),
{
    people.push(String::from_str("Elaina Proctor"));
    people.push(String::from_str("Harvey Specter"));
    assert(texts(people@) =~= texts(old(people)@) + first_people());
}

/// Every frame: the line to print.
pub fn hello_world() -> (line: String)
    ensures
        line@ == "Hello, world!"@,
{
    String::from_str("Hello, world!")
}

/// The line that welcomes the person called `name`.
pub fn welcome(name: &str) -> (line: String)
    ensures
        line@ == welcome_text(name@),
{
    let mut line = String::from_str("Welcome Ranger ");
    line.append(name);
    line.append("!");
    line
}

/// Every frame: counts the frame's `delta_nanos` nanoseconds on `timer` and
/// returns the lines to print. In the frame in which the timer reaches its
/// delay these are the welcomes of `names`, one each, in order; in every
/// other frame there are none.
pub fn greet_people(timer: &mut GreetTimer, delta_nanos: u128, names: &Vec<String>) -> (lines: Vec<
    String,
>)
    ensures
        final(timer)@ == old(timer)@.tick(delta_nanos as nat),
        texts(lines@) == if old(timer)@.reaches_delay(delta_nanos as nat) {
            welcome_texts(texts(names@))
        } else {
            Seq::empty()
        },
{
    let mut lines: Vec<String> = Vec::new();
    if timer.tick(delta_nanos) {
        let mut i: usize = 0;
        while i < names.len()
            invariant
                i <= names.len(),
                lines.len() == i,
                forall|k: int| 0 <= k < i ==> lines@[k]@ == welcome_text(names@[k]@),
            decreases names.len() - i,
        {
            let line = welcome(names[i].as_str());
            lines.push(line);
            i += 1;
        }
        assert(texts(lines@) =~= welcome_texts(texts(names@)));
    } else {
        assert(texts(lines@) =~= Seq::empty());
    }
    lines
}

} // verus!

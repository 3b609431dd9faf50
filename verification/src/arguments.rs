use vstd::prelude::*;

use crate::text::{parse_u64, same_text, u64_from_text};

verus! {

/// Milliseconds between moving the camera and the frame that answers a capture, unless
/// the command line says otherwise.
pub const DEFAULT_CAPTURE_DELAY_MS: u64 = 45;

/// The option that sets the capture delay.
pub const CAPTURE_DELAY_OPTION: &'static str = "--capture-delay";

/// The capture delay that the remaining arguments select, `delay` being the one chosen so
/// far, or the message of the error that ends the reading: each argument must be the
/// option followed by an unsigned number of milliseconds, and the last one wins.
pub open spec fn capture_delay_from(args: Seq<Seq<char>>, delay: u64) -> Result<u64, Seq<char>>
    decreases args.len(),
{
    if args.len() == 0 {
        Ok(delay)
    } else if args[0] != CAPTURE_DELAY_OPTION@ {
        Err("unrecognized argument: "@ + args[0])
    } else if args.len() == 1 {
        Err("missing value for --capture-delay"@)
    } else {
        match u64_from_text(args[1]) {
            Some(milliseconds) => capture_delay_from(args.skip(2), milliseconds),
            None => Err("--capture-delay must be an unsigned integer in milliseconds"@),
        }
    }
}

/// The arguments as texts.
pub open spec fn argument_texts(args: Seq<String>) -> Seq<Seq<char>> {
    args.map_values(|arg: String| arg@)
}

/// Reads the capture delay, in milliseconds, from the program's arguments (without the
/// program name).
pub fn parse_capture_delay(args: &Vec<String>) -> (res: Result<u64, String>)
    ensures
        match res {
            Ok(milliseconds) => capture_delay_from(argument_texts(args@), DEFAULT_CAPTURE_DELAY_MS)
                == Ok::<u64, Seq<char>>(milliseconds),
            Err(message) => capture_delay_from(argument_texts(args@), DEFAULT_CAPTURE_DELAY_MS)
                == Err::<u64, Seq<char>>(message@),
        },
{
    let ghost all = argument_texts(args@);
    let mut delay = DEFAULT_CAPTURE_DELAY_MS;
    let mut i: usize = 0;
    proof {
        assert(all.skip(0) =~= all);
    }
    while i < args.len()
        invariant
            i <= args.len(),
            all == argument_texts(args@),
            capture_delay_from(all, DEFAULT_CAPTURE_DELAY_MS) == capture_delay_from(
                all.skip(i as int),
                delay,
            ),
        decreases args.len() - i,
    {
        let ghost rest = all.skip(i as int);
        assert(rest[0] == args@[i as int]@);
        if !same_text(args[i].as_str(), CAPTURE_DELAY_OPTION) {
            return Err(String::from_str("unrecognized argument: ").concat(args[i].as_str()));
        }
        if i + 1 >= args.len() {
            return Err(String::from_str("missing value for --capture-delay"));
        }
        assert(rest[1] == args@[i + 1]@);
        match parse_u64(args[i + 1].as_str()) {
            Some(milliseconds) => {
                delay = milliseconds;
            },
            None => {
                return Err(
                    String::from_str("--capture-delay must be an unsigned integer in milliseconds"),
                );
            },
        }
        proof {
            assert(rest.skip(2) =~= all.skip(i + 2));
        }
        i = i + 2;
    }
    proof {
        assert(all.skip(i as int).len() == 0);
    }
    Ok(delay)
}

/// The last capture delay on the command line wins: appending the option with a valid
/// number of milliseconds to arguments that are read without error selects that number.
pub proof fn law_last_capture_delay_wins(args: Seq<Seq<char>>, value: Seq<char>, delay: u64)
    requires
        capture_delay_from(args, delay) is Ok,
        u64_from_text(value) is Some,
    ensures
        capture_delay_from(args + seq![CAPTURE_DELAY_OPTION@, value], delay) == Ok::<
            u64,
            Seq<char>,
        >(u64_from_text(value)->0),
    decreases args.len(),
{
    let extended = args + seq![CAPTURE_DELAY_OPTION@, value];
    if args.len() == 0 {
        assert(extended =~= seq![CAPTURE_DELAY_OPTION@, value]);
        assert(extended.skip(2) =~= Seq::<Seq<char>>::empty());
        assert(extended[1] == value);
        let chosen = u64_from_text(value)->0;
        assert(capture_delay_from(Seq::<Seq<char>>::empty(), chosen) == Ok::<u64, Seq<char>>(chosen));
        assert(capture_delay_from(extended, delay) == capture_delay_from(extended.skip(2), chosen));
    } else {
        assert(extended[0] == args[0]);
        assert(args.len() >= 2);
        assert(extended[1] == args[1]);
        let milliseconds = u64_from_text(args[1])->0;
        assert(extended.skip(2) =~= args.skip(2) + seq![CAPTURE_DELAY_OPTION@, value]);
        law_last_capture_delay_wins(args.skip(2), value, milliseconds);
        assert(capture_delay_from(extended, delay) == capture_delay_from(extended.skip(2), milliseconds));
    }
}

} // verus!

use vstd::prelude::*;

verus! {

/// The course identifier of the comprehensive assessment exam on the
/// platform. A deployment with a different assessment course passes its
/// own identifier to the exam workflow instead.
pub fn assessment_course_id() -> (r: String)
    ensures
        r@ == "qkcfawcsxyrom0zrwghhwq"@,
{
    let r = "qkcfawcsxyrom0zrwghhwq".to_owned();
    r
}

/// The school identifier assumed when the user supplies none.
pub fn default_school_id() -> (r: String)
    ensures
        r@ == "i7kbawgs4kfesy5it2xp0w"@,
{
    let r = "i7kbawgs4kfesy5it2xp0w".to_owned();
    r
}

/// The hours-equivalent study target assumed when the user supplies none.
pub fn default_hours() -> (r: u32)
    ensures
        r == 6,
{
    6
}

/// The score cap assumed when the user supplies none: answer every
/// question the bank knows.
pub fn default_score() -> (r: u32)
    ensures
        r == 100,
{
    100
}

} // verus!

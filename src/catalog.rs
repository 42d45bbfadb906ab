//! The fixed list of courses and the search filter over it.

use vstd::prelude::*;
use crate::text::{contains, contains_text};

verus! {

/// One entry of the catalog.
#[derive(Clone, Copy)]
pub struct Course {
    pub title: &'static str,
    pub price: u32,
    pub description: &'static str,
}

/// The catalog, in the order in which it is shown.
pub open spec fn catalog() -> Seq<Course> {
    seq![
        Course {
            title: "O101 - Meet Onat",
            price: 100,
            description: "In this course, you will have the chance to talk with Onat and get familiar with his way of thinking. Lunch with Onat is included.",
        },
        Course {
            title: "O102 - Introduction to Gitdb",
            price: 100,
            description: "We will walk through towards creating a git clone. Lunch with Onat is included.",
        },
        Course {
            title: "O201 - Fundamentals of Heimdall",
            price: 255,
            description: "Onat will take you to a journey through his thought process while he was building his signature project Heimdall.",
        },
        Course {
            title: "O301 - NAND to Kubernetes",
            price: 500,
            description: "In this course, Onat will talk about NANDs and Kubernetes. How they are used together to build highly performing distributed systems.",
        },
        Course {
            title: "O401 - Career planning",
            price: 750,
            description: "This couse includes one-to-one sessions with Onat for understanding your needs and help you with planning the rest of your career. was building his signature project Heimdall.",
        },
    ]
}

/// A course is shown for `search` when its title or its description contains it.
pub open spec fn course_matches(c: Course, search: Seq<char>) -> bool {
    contains_text(c.title@, search) || contains_text(c.description@, search)
}

/// The courses shown for `search`, in catalog order.
pub open spec fn visible(search: Seq<char>) -> Seq<Course> {
    catalog().filter(|c: Course| course_matches(c, search))
}

/// The whole catalog.
pub fn courses() -> (r: Vec<Course>)
    ensures
        r@ == catalog(),
{
    let mut v: Vec<Course> = Vec::new();
    v.push(Course {
        title: "O101 - Meet Onat",
        price: 100,
        description: "In this course, you will have the chance to talk with Onat and get familiar with his way of thinking. Lunch with Onat is included.",
    });
    v.push(Course {
        title: "O102 - Introduction to Gitdb",
        price: 100,
        description: "We will walk through towards creating a git clone. Lunch with Onat is included.",
    });
    v.push(Course {
        title: "O201 - Fundamentals of Heimdall",
        price: 255,
        description: "Onat will take you to a journey through his thought process while he was building his signature project Heimdall.",
    });
    v.push(Course {
        title: "O301 - NAND to Kubernetes",
        price: 500,
        description: "In this course, Onat will talk about NANDs and Kubernetes. How they are used together to build highly performing distributed systems.",
    });
    v.push(Course {
        title: "O401 - Career planning",
        price: 750,
        description: "This couse includes one-to-one sessions with Onat for understanding your needs and help you with planning the rest of your career. was building his signature project Heimdall.",
    });
    assert(v@ =~= catalog());
    v
}

/// Whether `c` is shown for `search_text`.
pub fn matches_search(c: &Course, search_text: &str) -> (r: bool)
    ensures
        r == course_matches(*c, search_text@),
{
    contains(c.title, search_text) || contains(c.description, search_text)
}

/// The courses shown for `search_text`: a stable filter of the catalog.
pub fn visible_courses(search_text: &str) -> (r: Vec<Course>)
    ensures
        r@ == visible(search_text@),
{
    let all = courses();
    let ghost pred = |c: Course| course_matches(c, search_text@);
    let mut r: Vec<Course> = Vec::new();
    let mut i: usize = 0;
    while i < all.len()
        invariant
            all@ == catalog(),
            pred == (|c: Course| course_matches(c, search_text@)),
            i <= all@.len(),
            r@ == all@.subrange(0, i as int).filter(pred),
        decreases all@.len() - i,
    {
        let c = all[i];
        let keep = matches_search(&c, search_text);
        proof {
            let next = all@.subrange(0, i + 1);
            assert(next.drop_last() =~= all@.subrange(0, i as int));
            assert(next.last() == c);
            assert(pred(c) == keep);
            let before = all@.subrange(0, i as int).filter(pred);
            reveal_with_fuel(Seq::filter, 1);
            assert(next.filter(pred) == if keep { before.push(c) } else { before });
        }
        if keep {
            r.push(c);
        }
        i += 1;
    }
    assert(all@.subrange(0, all@.len() as int) =~= all@);
    r
}

} // verus!

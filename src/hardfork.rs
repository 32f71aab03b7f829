//! The named hardforks, in the order in which they activate.
use vstd::prelude::*;
use vstd::string::StringExecFns;
use crate::text::{lower_of, lowercase, str_equals};

verus! {

/// The name of a hardfork.
#[derive(Clone, Copy, Debug, PartialEq, Eq, PartialOrd, Ord, Hash, Structural)]
pub enum Hardfork {
    Frontier,
    Homestead,
    Dao,
    Tangerine,
    SpuriousDragon,
    Byzantium,
    Constantinople,
    Petersburg,
    Istanbul,
    MuirGlacier,
    Berlin,
    London,
    ArrowGlacier,
    GrayGlacier,
    Paris,
    Shanghai,
    Acapella,
}

impl Hardfork {
    /// The position of the fork in activation order.
    pub open spec fn spec_rank(self) -> nat {
        match self {
            Hardfork::Frontier => 0,
            Hardfork::Homestead => 1,
            Hardfork::Dao => 2,
            Hardfork::Tangerine => 3,
            Hardfork::SpuriousDragon => 4,
            Hardfork::Byzantium => 5,
            Hardfork::Constantinople => 6,
            Hardfork::Petersburg => 7,
            Hardfork::Istanbul => 8,
            Hardfork::MuirGlacier => 9,
            Hardfork::Berlin => 10,
            Hardfork::London => 11,
            Hardfork::ArrowGlacier => 12,
            Hardfork::GrayGlacier => 13,
            Hardfork::Paris => 14,
            Hardfork::Shanghai => 15,
            Hardfork::Acapella => 16,
        }
    }

    /// The lower-case name of the fork.
    pub open spec fn spec_name(self) -> Seq<char> {
        match self {
            Hardfork::Frontier => "frontier"@,
            Hardfork::Homestead => "homestead"@,
            Hardfork::Dao => "dao"@,
            Hardfork::Tangerine => "tangerine"@,
            Hardfork::SpuriousDragon => "spuriousdragon"@,
            Hardfork::Byzantium => "byzantium"@,
            Hardfork::Constantinople => "constantinople"@,
            Hardfork::Petersburg => "petersburg"@,
            Hardfork::Istanbul => "istanbul"@,
            Hardfork::MuirGlacier => "muirglacier"@,
            Hardfork::Berlin => "berlin"@,
            Hardfork::London => "london"@,
            Hardfork::ArrowGlacier => "arrowglacier"@,
            Hardfork::GrayGlacier => "grayglacier"@,
            Hardfork::Paris => "paris"@,
            Hardfork::Shanghai => "shanghai"@,
            Hardfork::Acapella => "acapella"@,
        }
    }

    pub fn rank(&self) -> (r: u8)
        ensures
            r as nat == self.spec_rank(),
    {
        match self {
            Hardfork::Frontier => 0,
            Hardfork::Homestead => 1,
            Hardfork::Dao => 2,
            Hardfork::Tangerine => 3,
            Hardfork::SpuriousDragon => 4,
            Hardfork::Byzantium => 5,
            Hardfork::Constantinople => 6,
            Hardfork::Petersburg => 7,
            Hardfork::Istanbul => 8,
            Hardfork::MuirGlacier => 9,
            Hardfork::Berlin => 10,
            Hardfork::London => 11,
            Hardfork::ArrowGlacier => 12,
            Hardfork::GrayGlacier => 13,
            Hardfork::Paris => 14,
            Hardfork::Shanghai => 15,
            Hardfork::Acapella => 16,
        }
    }

    pub fn name(&self) -> (r: &'static str)
        ensures
            r@ == self.spec_name(),
    {
        match self {
            Hardfork::Frontier => "frontier",
            Hardfork::Homestead => "homestead",
            Hardfork::Dao => "dao",
            Hardfork::Tangerine => "tangerine",
            Hardfork::SpuriousDragon => "spuriousdragon",
            Hardfork::Byzantium => "byzantium",
            Hardfork::Constantinople => "constantinople",
            Hardfork::Petersburg => "petersburg",
            Hardfork::Istanbul => "istanbul",
            Hardfork::MuirGlacier => "muirglacier",
            Hardfork::Berlin => "berlin",
            Hardfork::London => "london",
            Hardfork::ArrowGlacier => "arrowglacier",
            Hardfork::GrayGlacier => "grayglacier",
            Hardfork::Paris => "paris",
            Hardfork::Shanghai => "shanghai",
            Hardfork::Acapella => "acapella",
        }
    }

    /// The fork whose lower-case name is exactly `name`.
    pub fn from_lowercase_name(name: &str) -> (r: Option<Hardfork>)
        ensures
            r matches Some(h) ==> h.spec_name() == name@ && forall|g: Hardfork|
                g.spec_name() == name@ ==> g == h,
            r is None ==> forall|h: Hardfork| h.spec_name() != name@,
    {
        let all = [
            Hardfork::Frontier,
            Hardfork::Homestead,
            Hardfork::Dao,
            Hardfork::Tangerine,
            Hardfork::SpuriousDragon,
            Hardfork::Byzantium,
            Hardfork::Constantinople,
            Hardfork::Petersburg,
            Hardfork::Istanbul,
            Hardfork::MuirGlacier,
            Hardfork::Berlin,
            Hardfork::London,
            Hardfork::ArrowGlacier,
            Hardfork::GrayGlacier,
            Hardfork::Paris,
            Hardfork::Shanghai,
            Hardfork::Acapella,
        ];
        let mut i: usize = 0;
        while i < 17
            invariant
                i <= 17,
                all@.len() == 17,
                forall|h: Hardfork| #[trigger] h.spec_rank() < 17 && all@[h.spec_rank() as int] == h,
                forall|j: int| 0 <= j < i ==> all@[j].spec_name() != name@,
            decreases 17 - i,
        {
            let h = all[i];
            if str_equals(h.name(), name) {
                proof {
                    assert forall|g: Hardfork| g.spec_name() == name@ implies g == h by {
                        lemma_names_distinct(g, h);
                    }
                }
                return Some(h);
            }
            i = i + 1;
        }
        assert forall|h: Hardfork| h.spec_name() != name@ by {
            assert(h.spec_rank() < 17);
        }
        None
    }

    /// Reads a fork's name, in any case.
    pub fn from_str(s: &str) -> (r: Result<Hardfork, String>)
        ensures
            r matches Ok(h) ==> h.spec_name() == lower_of(s@),
            r matches Err(e) ==> (forall|h: Hardfork| h.spec_name() != lower_of(s@))
                && e@ == "Unknown hardfork: "@ + lower_of(s@),
    {
        let lower = lowercase(s);
        match Hardfork::from_lowercase_name(lower.as_str()) {
            Some(h) => Ok(h),
            None => {
                let msg = <String as StringExecFns>::from_str("Unknown hardfork: ");
                Err(msg.concat(lower.as_str()))
            },
        }
    }
}

/// Two forks of the same name are the same fork.
pub proof fn lemma_names_distinct(a: Hardfork, b: Hardfork)
    ensures
        a.spec_name() == b.spec_name() ==> a == b,
{
    reveal_strlit("frontier");
    reveal_strlit("homestead");
    reveal_strlit("dao");
    reveal_strlit("tangerine");
    reveal_strlit("spuriousdragon");
    reveal_strlit("byzantium");
    reveal_strlit("constantinople");
    reveal_strlit("petersburg");
    reveal_strlit("istanbul");
    reveal_strlit("muirglacier");
    reveal_strlit("berlin");
    reveal_strlit("london");
    reveal_strlit("arrowglacier");
    reveal_strlit("grayglacier");
    reveal_strlit("paris");
    reveal_strlit("shanghai");
    reveal_strlit("acapella");
    if a.spec_name() == b.spec_name() && a != b {
        // the lengths and the first three characters tell every pair apart
        assert(a.spec_name().len() == b.spec_name().len());
        assert(a.spec_name()[0] == b.spec_name()[0]);
        assert(a.spec_name()[1] == b.spec_name()[1]);
        assert(a.spec_name()[2] == b.spec_name()[2]);
    }
}

} // verus!

use std::any::TypeId;
use vstd::prelude::*;

verus! {

/// One expected component type: its identity and its name for diagnostics.
pub struct Expected {
    pub id: TypeId,
    pub name: String,
}

/// The expectations of one declaring component type.
pub struct Contract {
    pub declaring: String,
    pub expected: Vec<Expected>,
}

/// Why a set of annotations does not make a contract.
#[derive(Debug, PartialEq, Eq, Structural)]
pub enum DeclarationError {
    /// No annotation names any expected type.
    NoExpectations,
}

/// All the entries of the annotations, one annotation after another.
pub open spec fn flatten(annotations: Seq<Vec<Expected>>) -> Seq<Expected>
    decreases annotations.len(),
{
    if annotations.len() == 0 {
        Seq::empty()
    } else {
        annotations[0]@ + flatten(annotations.drop_first())
    }
}

impl Contract {
    /// A contract is well formed when it expects at least one type.
    pub open spec fn wf(&self) -> bool {
        self.expected@.len() > 0
    }

    /// Builds the contract of `declaring` from its annotations: their
    /// expected types are concatenated in declaration order. A declaration
    /// whose annotations name no type at all is refused.
    pub fn declare(declaring: String, annotations: Vec<Vec<Expected>>) -> (r: Result<
        Contract,
        DeclarationError,
    >)
        ensures
            flatten(annotations@).len() == 0 <==> r == Err::<Contract, DeclarationError>(
                DeclarationError::NoExpectations,
            ),
            r matches Ok(c) ==> c.wf() && c.declaring == declaring && c.expected@ == flatten(
                annotations@,
            ),
    {
        let mut rest = annotations;
        let mut expected: Vec<Expected> = Vec::new();
        while rest.len() > 0
            invariant
                expected@ + flatten(rest@) == flatten(annotations@),
            decreases rest.len(),
        {
            let ghost before = rest@;
            let mut first = rest.remove(0);
            assert(rest@ == before.drop_first());
            expected.append(&mut first);
            assert(expected@ + flatten(rest@) =~= flatten(annotations@));
        }
        assert(expected@ =~= flatten(annotations@));
        if expected.len() == 0 {
            Err(DeclarationError::NoExpectations)
        } else {
            Ok(Contract { declaring, expected })
        }
    }
}

} // verus!

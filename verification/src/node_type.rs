//! The types of node, and what each declares of itself.

use crate::text::str_eq;
use vstd::prelude::*;

verus! {

/// The kind of node that the client declares itself to be.
#[derive(Debug, Clone, Copy, PartialEq, Eq, Structural)]
pub enum NodeType {
    Extension,
    Desktop,
    CommunityExtension,
}

/// What is wrong with the configuration that the client was started with.
#[derive(Debug, Clone, Copy, PartialEq, Eq, Structural)]
pub enum ConfigError {
    /// The node-type selector is none of `1x`, `2x` and `1.25x`.
    InvalidNodeType,
}

impl NodeType {
    /// The node type that a selector stands for.
    pub open spec fn of_selector(s: Seq<char>) -> Option<NodeType> {
        if s == "1x"@ {
            Some(NodeType::Extension)
        } else if s == "2x"@ {
            Some(NodeType::Desktop)
        } else if s == "1.25x"@ {
            Some(NodeType::CommunityExtension)
        } else {
            None
        }
    }

    /// The selector that stands for the node type.
    pub open spec fn spec_selector(self) -> Seq<char> {
        match self {
            NodeType::Extension => "1x"@,
            NodeType::Desktop => "2x"@,
            NodeType::CommunityExtension => "1.25x"@,
        }
    }

    /// The protocol version that the node type speaks.
    pub open spec fn spec_version(self) -> Seq<char> {
        match self {
            NodeType::Desktop => "4.30.0"@,
            _ => "4.26.2"@,
        }
    }

    /// The device-type label of the node type.
    pub open spec fn spec_device_type(self) -> Seq<char> {
        match self {
            NodeType::Desktop => "desktop"@,
            _ => "extension"@,
        }
    }

    /// The extension identifier of the node type, where it has one.
    pub open spec fn spec_extension_id(self) -> Option<Seq<char>> {
        match self {
            NodeType::Desktop => None,
            NodeType::Extension => Some("ilehaonighjijnmpnagapkhpcdbhclfg"@),
            NodeType::CommunityExtension => Some("lkbnfiajjmbhnfledhphioinpickokdi"@),
        }
    }

    /// Reads a node-type selector: `1x`, `2x` or `1.25x`. Anything else is a
    /// configuration error.
    pub fn parse(s: &str) -> (r: Result<NodeType, ConfigError>)
        ensures
            r == match NodeType::of_selector(s@) {
                Some(t) => Ok::<NodeType, ConfigError>(t),
                None => Err(ConfigError::InvalidNodeType),
            },
    {
        if str_eq(s, "1x") {
            Ok(NodeType::Extension)
        } else if str_eq(s, "2x") {
            Ok(NodeType::Desktop)
        } else if str_eq(s, "1.25x") {
            Ok(NodeType::CommunityExtension)
        } else {
            Err(ConfigError::InvalidNodeType)
        }
    }

    /// The node type of a selector that is known to be one.
    pub fn from_str(s: &str) -> (t: NodeType)
        requires
            NodeType::of_selector(s@) is Some,
        ensures
            NodeType::of_selector(s@) == Some(t),
    {
        if str_eq(s, "1x") {
            NodeType::Extension
        } else if str_eq(s, "2x") {
            NodeType::Desktop
        } else {
            NodeType::CommunityExtension
        }
    }

    /// The selector of the node type.
    pub fn selector(&self) -> (s: &'static str)
        ensures
            s@ == self.spec_selector(),
    {
        match self {
            NodeType::Extension => "1x",
            NodeType::Desktop => "2x",
            NodeType::CommunityExtension => "1.25x",
        }
    }

    /// The protocol version that the node type speaks.
    pub fn version(&self) -> (v: &'static str)
        ensures
            v@ == self.spec_version(),
    {
        match self {
            NodeType::Desktop => "4.30.0",
            _ => "4.26.2",
        }
    }

    /// The device-type label of the node type.
    pub fn device_type(&self) -> (d: &'static str)
        ensures
            d@ == self.spec_device_type(),
    {
        match self {
            NodeType::Desktop => "desktop",
            _ => "extension",
        }
    }

    /// The extension identifier of the node type, where it has one.
    pub fn extension_id(&self) -> (id: Option<&'static str>)
        ensures
            match id {
                Some(e) => self.spec_extension_id() == Some(e@),
                None => self.spec_extension_id() is None,
            },
    {
        match self {
            NodeType::Desktop => None,
            NodeType::Extension => Some("ilehaonighjijnmpnagapkhpcdbhclfg"),
            NodeType::CommunityExtension => Some("lkbnfiajjmbhnfledhphioinpickokdi"),
        }
    }

    /// A selector read back gives the node type that it was taken from.
    pub proof fn lemma_selector_round_trip(self)
        ensures
            NodeType::of_selector(self.spec_selector()) == Some(self),
    {
        reveal_strlit("1x");
        reveal_strlit("2x");
        reveal_strlit("1.25x");
        assert("1x"@.len() == 2);
        assert("2x"@.len() == 2);
        assert("1x"@[0] == '1');
    }
}

} // verus!

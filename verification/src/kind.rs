//! The kind catalogue and kind resolution.
//!
//! A node's `"kind"` string names which syntax-tree construct it is.  The
//! catalogue below is the fixed, producer-version-derived set of recognized
//! names; resolution is total: a string outside the catalogue is not an
//! error, it is carried verbatim so that payload schemas with a fallback
//! variant can still accept it.

use vstd::prelude::*;
use vstd::string::StringExecFns;

verus! {

/// A recognized node-kind name, plus the `null` sentinel meaning "no kind
/// tag was present".
#[derive(Copy, Clone, Eq, PartialEq, Structural, Ord, PartialOrd, Hash, Debug)]
#[non_exhaustive]
#[allow(non_camel_case_types)]
pub enum Kind {
    AbiTagAttr,
    AccessSpecDecl,
    AliasAttr,
    AlignedAttr,
    AllocAlignAttr,
    AllocSizeAttr,
    AlwaysInlineAttr,
    ArrayInitIndexExpr,
    ArrayInitLoopExpr,
    ArraySubscriptExpr,
    ArrayTypeTraitExpr,
    AsmLabelAttr,
    AtomicExpr,
    AtomicType,
    AttributedStmt,
    AttributedType,
    AutoType,
    AvailabilityAttr,
    BinaryOperator,
    BindingDecl,
    BlockPointerType,
    BreakStmt,
    BuiltinAttr,
    BuiltinBitCastExpr,
    BuiltinTemplateDecl,
    BuiltinType,
    CStyleCastExpr,
    CXX11NoReturnAttr,
    CXXBindTemporaryExpr,
    CXXBoolLiteralExpr,
    CXXCatchStmt,
    CXXConstCastExpr,
    CXXConstructExpr,
    CXXConstructorDecl,
    CXXConversionDecl,
    CXXCtorInitializer,
    CXXDeductionGuideDecl,
    CXXDefaultArgExpr,
    CXXDefaultInitExpr,
    CXXDeleteExpr,
    CXXDependentScopeMemberExpr,
    CXXDestructorDecl,
    CXXDynamicCastExpr,
    CXXFoldExpr,
    CXXForRangeStmt,
    CXXFunctionalCastExpr,
    CXXInheritedCtorInitExpr,
    CXXMemberCallExpr,
    CXXMethodDecl,
    CXXNewExpr,
    CXXNoexceptExpr,
    CXXNullPtrLiteralExpr,
    CXXOperatorCallExpr,
    CXXPseudoDestructorExpr,
    CXXRecordDecl,
    CXXReinterpretCastExpr,
    CXXRewrittenBinaryOperator,
    CXXScalarValueInitExpr,
    CXXStaticCastExpr,
    CXXTemporaryObjectExpr,
    CXXThisExpr,
    CXXThrowExpr,
    CXXTryStmt,
    CXXTypeidExpr,
    CXXUnresolvedConstructExpr,
    CallExpr,
    CallbackAttr,
    CaseStmt,
    CharacterLiteral,
    ClassTemplateDecl,
    ClassTemplatePartialSpecializationDecl,
    ClassTemplateSpecializationDecl,
    ColdAttr,
    ComplexType,
    CompoundAssignOperator,
    CompoundLiteralExpr,
    CompoundRequirement,
    CompoundStmt,
    ConceptDecl,
    ConceptSpecializationExpr,
    ConditionalOperator,
    ConstAttr,
    ConstantArrayType,
    ConstantExpr,
    ConstructorUsingShadowDecl,
    ContinueStmt,
    ConvertVectorExpr,
    DLLImportAttr,
    DecayedType,
    DeclRefExpr,
    DeclStmt,
    DecltypeType,
    DecompositionDecl,
    DefaultStmt,
    DependentNameType,
    DependentScopeDeclRefExpr,
    DependentSizedArrayType,
    DependentTemplateSpecializationType,
    DeprecatedAttr,
    DiagnoseIfAttr,
    DisableTailCallsAttr,
    DoStmt,
    ElaboratedType,
    EmptyDecl,
    EnableIfAttr,
    EnumConstantDecl,
    EnumDecl,
    EnumType,
    ExprWithCleanups,
    FallThroughAttr,
    FieldDecl,
    FinalAttr,
    FloatingLiteral,
    ForStmt,
    FormatArgAttr,
    FormatAttr,
    FriendDecl,
    FullComment,
    FunctionDecl,
    FunctionProtoType,
    FunctionTemplateDecl,
    GCCAsmStmt,
    GNUInlineAttr,
    GNUNullExpr,
    GotoStmt,
    HTMLEndTagComment,
    HTMLStartTagComment,
    IfStmt,
    ImplicitCastExpr,
    ImplicitValueInitExpr,
    IncompleteArrayType,
    IndirectFieldDecl,
    InitListExpr,
    InjectedClassNameType,
    InlineCommandComment,
    IntegerLiteral,
    InternalLinkageAttr,
    LValueReferenceType,
    LabelStmt,
    LambdaExpr,
    LikelyAttr,
    LinkageSpecDecl,
    MaterializeTemporaryExpr,
    MaxFieldAlignmentAttr,
    MayAliasAttr,
    MemberExpr,
    MemberPointerType,
    MinVectorWidthAttr,
    ModeAttr,
    NamespaceAliasDecl,
    NamespaceDecl,
    NestedRequirement,
    NoAliasAttr,
    NoDebugAttr,
    NoEscapeAttr,
    NoInlineAttr,
    NoSanitizeAttr,
    NoThrowAttr,
    NoUniqueAddressAttr,
    NonNullAttr,
    NonTypeTemplateParmDecl,
    NullStmt,
    OffsetOfExpr,
    OpaqueValueExpr,
    OverrideAttr,
    OwnerAttr,
    PackExpansionExpr,
    PackExpansionType,
    PackedAttr,
    ParagraphComment,
    ParamCommandComment,
    ParenExpr,
    ParenListExpr,
    ParenType,
    ParmVarDecl,
    PointerAttr,
    PointerType,
    PredefinedExpr,
    PreferredNameAttr,
    PureAttr,
    QualType,
    RValueReferenceType,
    RecordDecl,
    RecordType,
    RecoveryExpr,
    RequiresExpr,
    RestrictAttr,
    ReturnStmt,
    ReturnsNonNullAttr,
    ReturnsTwiceAttr,
    ShuffleVectorExpr,
    SimpleRequirement,
    SizeOfPackExpr,
    StaticAssertDecl,
    StringLiteral,
    SubstNonTypeTemplateParmExpr,
    SubstTemplateTypeParmType,
    SwiftAttrAttr,
    SwitchStmt,
    TargetAttr,
    TemplateArgument,
    TemplateSpecializationType,
    TemplateTemplateParmDecl,
    TemplateTypeParmDecl,
    TemplateTypeParmType,
    TextComment,
    TranslationUnitDecl,
    TypeAliasDecl,
    TypeAliasTemplateDecl,
    TypeOfExprType,
    TypeRequirement,
    TypeTraitExpr,
    TypeVisibilityAttr,
    TypedefDecl,
    TypedefType,
    UnaryExprOrTypeTraitExpr,
    UnaryOperator,
    UnaryTransformType,
    UnavailableAttr,
    UnlikelyAttr,
    UnresolvedLookupExpr,
    UnresolvedMemberExpr,
    UnresolvedUsingIfExistsDecl,
    UnresolvedUsingTypenameDecl,
    UnresolvedUsingValueDecl,
    UnusedAttr,
    UserDefinedLiteral,
    UsingDecl,
    UsingDirectiveDecl,
    UsingEnumDecl,
    UsingIfExistsAttr,
    UsingShadowDecl,
    UsingType,
    VTablePointerAuthenticationAttr,
    VarDecl,
    VarTemplateDecl,
    VarTemplatePartialSpecializationDecl,
    VarTemplateSpecializationDecl,
    VectorType,
    VerbatimLineComment,
    VisibilityAttr,
    WarnUnusedResultAttr,
    WeakAttr,
    WeakImportAttr,
    WeakRefAttr,
    WhileStmt,
    null,
}

/// The stable string form of a catalogue entry: its source name.
pub open spec fn kind_name(k: Kind) -> Seq<char> {
    match k {
        Kind::AbiTagAttr => "AbiTagAttr"@,
        Kind::AccessSpecDecl => "AccessSpecDecl"@,
        Kind::AliasAttr => "AliasAttr"@,
        Kind::AlignedAttr => "AlignedAttr"@,
        Kind::AllocAlignAttr => "AllocAlignAttr"@,
        Kind::AllocSizeAttr => "AllocSizeAttr"@,
        Kind::AlwaysInlineAttr => "AlwaysInlineAttr"@,
        Kind::ArrayInitIndexExpr => "ArrayInitIndexExpr"@,
        Kind::ArrayInitLoopExpr => "ArrayInitLoopExpr"@,
        Kind::ArraySubscriptExpr => "ArraySubscriptExpr"@,
        Kind::ArrayTypeTraitExpr => "ArrayTypeTraitExpr"@,
        Kind::AsmLabelAttr => "AsmLabelAttr"@,
        Kind::AtomicExpr => "AtomicExpr"@,
        Kind::AtomicType => "AtomicType"@,
        Kind::AttributedStmt => "AttributedStmt"@,
        Kind::AttributedType => "AttributedType"@,
        Kind::AutoType => "AutoType"@,
        Kind::AvailabilityAttr => "AvailabilityAttr"@,
        Kind::BinaryOperator => "BinaryOperator"@,
        Kind::BindingDecl => "BindingDecl"@,
        Kind::BlockPointerType => "BlockPointerType"@,
        Kind::BreakStmt => "BreakStmt"@,
        Kind::BuiltinAttr => "BuiltinAttr"@,
        Kind::BuiltinBitCastExpr => "BuiltinBitCastExpr"@,
        Kind::BuiltinTemplateDecl => "BuiltinTemplateDecl"@,
        Kind::BuiltinType => "BuiltinType"@,
        Kind::CStyleCastExpr => "CStyleCastExpr"@,
        Kind::CXX11NoReturnAttr => "CXX11NoReturnAttr"@,
        Kind::CXXBindTemporaryExpr => "CXXBindTemporaryExpr"@,
        Kind::CXXBoolLiteralExpr => "CXXBoolLiteralExpr"@,
        Kind::CXXCatchStmt => "CXXCatchStmt"@,
        Kind::CXXConstCastExpr => "CXXConstCastExpr"@,
        Kind::CXXConstructExpr => "CXXConstructExpr"@,
        Kind::CXXConstructorDecl => "CXXConstructorDecl"@,
        Kind::CXXConversionDecl => "CXXConversionDecl"@,
        Kind::CXXCtorInitializer => "CXXCtorInitializer"@,
        Kind::CXXDeductionGuideDecl => "CXXDeductionGuideDecl"@,
        Kind::CXXDefaultArgExpr => "CXXDefaultArgExpr"@,
        Kind::CXXDefaultInitExpr => "CXXDefaultInitExpr"@,
        Kind::CXXDeleteExpr => "CXXDeleteExpr"@,
        Kind::CXXDependentScopeMemberExpr => "CXXDependentScopeMemberExpr"@,
        Kind::CXXDestructorDecl => "CXXDestructorDecl"@,
        Kind::CXXDynamicCastExpr => "CXXDynamicCastExpr"@,
        Kind::CXXFoldExpr => "CXXFoldExpr"@,
        Kind::CXXForRangeStmt => "CXXForRangeStmt"@,
        Kind::CXXFunctionalCastExpr => "CXXFunctionalCastExpr"@,
        Kind::CXXInheritedCtorInitExpr => "CXXInheritedCtorInitExpr"@,
        Kind::CXXMemberCallExpr => "CXXMemberCallExpr"@,
        Kind::CXXMethodDecl => "CXXMethodDecl"@,
        Kind::CXXNewExpr => "CXXNewExpr"@,
        Kind::CXXNoexceptExpr => "CXXNoexceptExpr"@,
        Kind::CXXNullPtrLiteralExpr => "CXXNullPtrLiteralExpr"@,
        Kind::CXXOperatorCallExpr => "CXXOperatorCallExpr"@,
        Kind::CXXPseudoDestructorExpr => "CXXPseudoDestructorExpr"@,
        Kind::CXXRecordDecl => "CXXRecordDecl"@,
        Kind::CXXReinterpretCastExpr => "CXXReinterpretCastExpr"@,
        Kind::CXXRewrittenBinaryOperator => "CXXRewrittenBinaryOperator"@,
        Kind::CXXScalarValueInitExpr => "CXXScalarValueInitExpr"@,
        Kind::CXXStaticCastExpr => "CXXStaticCastExpr"@,
        Kind::CXXTemporaryObjectExpr => "CXXTemporaryObjectExpr"@,
        Kind::CXXThisExpr => "CXXThisExpr"@,
        Kind::CXXThrowExpr => "CXXThrowExpr"@,
        Kind::CXXTryStmt => "CXXTryStmt"@,
        Kind::CXXTypeidExpr => "CXXTypeidExpr"@,
        Kind::CXXUnresolvedConstructExpr => "CXXUnresolvedConstructExpr"@,
        Kind::CallExpr => "CallExpr"@,
        Kind::CallbackAttr => "CallbackAttr"@,
        Kind::CaseStmt => "CaseStmt"@,
        Kind::CharacterLiteral => "CharacterLiteral"@,
        Kind::ClassTemplateDecl => "ClassTemplateDecl"@,
        Kind::ClassTemplatePartialSpecializationDecl => "ClassTemplatePartialSpecializationDecl"@,
        Kind::ClassTemplateSpecializationDecl => "ClassTemplateSpecializationDecl"@,
        Kind::ColdAttr => "ColdAttr"@,
        Kind::ComplexType => "ComplexType"@,
        Kind::CompoundAssignOperator => "CompoundAssignOperator"@,
        Kind::CompoundLiteralExpr => "CompoundLiteralExpr"@,
        Kind::CompoundRequirement => "CompoundRequirement"@,
        Kind::CompoundStmt => "CompoundStmt"@,
        Kind::ConceptDecl => "ConceptDecl"@,
        Kind::ConceptSpecializationExpr => "ConceptSpecializationExpr"@,
        Kind::ConditionalOperator => "ConditionalOperator"@,
        Kind::ConstAttr => "ConstAttr"@,
        Kind::ConstantArrayType => "ConstantArrayType"@,
        Kind::ConstantExpr => "ConstantExpr"@,
        Kind::ConstructorUsingShadowDecl => "ConstructorUsingShadowDecl"@,
        Kind::ContinueStmt => "ContinueStmt"@,
        Kind::ConvertVectorExpr => "ConvertVectorExpr"@,
        Kind::DLLImportAttr => "DLLImportAttr"@,
        Kind::DecayedType => "DecayedType"@,
        Kind::DeclRefExpr => "DeclRefExpr"@,
        Kind::DeclStmt => "DeclStmt"@,
        Kind::DecltypeType => "DecltypeType"@,
        Kind::DecompositionDecl => "DecompositionDecl"@,
        Kind::DefaultStmt => "DefaultStmt"@,
        Kind::DependentNameType => "DependentNameType"@,
        Kind::DependentScopeDeclRefExpr => "DependentScopeDeclRefExpr"@,
        Kind::DependentSizedArrayType => "DependentSizedArrayType"@,
        Kind::DependentTemplateSpecializationType => "DependentTemplateSpecializationType"@,
        Kind::DeprecatedAttr => "DeprecatedAttr"@,
        Kind::DiagnoseIfAttr => "DiagnoseIfAttr"@,
        Kind::DisableTailCallsAttr => "DisableTailCallsAttr"@,
        Kind::DoStmt => "DoStmt"@,
        Kind::ElaboratedType => "ElaboratedType"@,
        Kind::EmptyDecl => "EmptyDecl"@,
        Kind::EnableIfAttr => "EnableIfAttr"@,
        Kind::EnumConstantDecl => "EnumConstantDecl"@,
        Kind::EnumDecl => "EnumDecl"@,
        Kind::EnumType => "EnumType"@,
        Kind::ExprWithCleanups => "ExprWithCleanups"@,
        Kind::FallThroughAttr => "FallThroughAttr"@,
        Kind::FieldDecl => "FieldDecl"@,
        Kind::FinalAttr => "FinalAttr"@,
        Kind::FloatingLiteral => "FloatingLiteral"@,
        Kind::ForStmt => "ForStmt"@,
        Kind::FormatArgAttr => "FormatArgAttr"@,
        Kind::FormatAttr => "FormatAttr"@,
        Kind::FriendDecl => "FriendDecl"@,
        Kind::FullComment => "FullComment"@,
        Kind::FunctionDecl => "FunctionDecl"@,
        Kind::FunctionProtoType => "FunctionProtoType"@,
        Kind::FunctionTemplateDecl => "FunctionTemplateDecl"@,
        Kind::GCCAsmStmt => "GCCAsmStmt"@,
        Kind::GNUInlineAttr => "GNUInlineAttr"@,
        Kind::GNUNullExpr => "GNUNullExpr"@,
        Kind::GotoStmt => "GotoStmt"@,
        Kind::HTMLEndTagComment => "HTMLEndTagComment"@,
        Kind::HTMLStartTagComment => "HTMLStartTagComment"@,
        Kind::IfStmt => "IfStmt"@,
        Kind::ImplicitCastExpr => "ImplicitCastExpr"@,
        Kind::ImplicitValueInitExpr => "ImplicitValueInitExpr"@,
        Kind::IncompleteArrayType => "IncompleteArrayType"@,
        Kind::IndirectFieldDecl => "IndirectFieldDecl"@,
        Kind::InitListExpr => "InitListExpr"@,
        Kind::InjectedClassNameType => "InjectedClassNameType"@,
        Kind::InlineCommandComment => "InlineCommandComment"@,
        Kind::IntegerLiteral => "IntegerLiteral"@,
        Kind::InternalLinkageAttr => "InternalLinkageAttr"@,
        Kind::LValueReferenceType => "LValueReferenceType"@,
        Kind::LabelStmt => "LabelStmt"@,
        Kind::LambdaExpr => "LambdaExpr"@,
        Kind::LikelyAttr => "LikelyAttr"@,
        Kind::LinkageSpecDecl => "LinkageSpecDecl"@,
        Kind::MaterializeTemporaryExpr => "MaterializeTemporaryExpr"@,
        Kind::MaxFieldAlignmentAttr => "MaxFieldAlignmentAttr"@,
        Kind::MayAliasAttr => "MayAliasAttr"@,
        Kind::MemberExpr => "MemberExpr"@,
        Kind::MemberPointerType => "MemberPointerType"@,
        Kind::MinVectorWidthAttr => "MinVectorWidthAttr"@,
        Kind::ModeAttr => "ModeAttr"@,
        Kind::NamespaceAliasDecl => "NamespaceAliasDecl"@,
        Kind::NamespaceDecl => "NamespaceDecl"@,
        Kind::NestedRequirement => "NestedRequirement"@,
        Kind::NoAliasAttr => "NoAliasAttr"@,
        Kind::NoDebugAttr => "NoDebugAttr"@,
        Kind::NoEscapeAttr => "NoEscapeAttr"@,
        Kind::NoInlineAttr => "NoInlineAttr"@,
        Kind::NoSanitizeAttr => "NoSanitizeAttr"@,
        Kind::NoThrowAttr => "NoThrowAttr"@,
        Kind::NoUniqueAddressAttr => "NoUniqueAddressAttr"@,
        Kind::NonNullAttr => "NonNullAttr"@,
        Kind::NonTypeTemplateParmDecl => "NonTypeTemplateParmDecl"@,
        Kind::NullStmt => "NullStmt"@,
        Kind::OffsetOfExpr => "OffsetOfExpr"@,
        Kind::OpaqueValueExpr => "OpaqueValueExpr"@,
        Kind::OverrideAttr => "OverrideAttr"@,
        Kind::OwnerAttr => "OwnerAttr"@,
        Kind::PackExpansionExpr => "PackExpansionExpr"@,
        Kind::PackExpansionType => "PackExpansionType"@,
        Kind::PackedAttr => "PackedAttr"@,
        Kind::ParagraphComment => "ParagraphComment"@,
        Kind::ParamCommandComment => "ParamCommandComment"@,
        Kind::ParenExpr => "ParenExpr"@,
        Kind::ParenListExpr => "ParenListExpr"@,
        Kind::ParenType => "ParenType"@,
        Kind::ParmVarDecl => "ParmVarDecl"@,
        Kind::PointerAttr => "PointerAttr"@,
        Kind::PointerType => "PointerType"@,
        Kind::PredefinedExpr => "PredefinedExpr"@,
        Kind::PreferredNameAttr => "PreferredNameAttr"@,
        Kind::PureAttr => "PureAttr"@,
        Kind::QualType => "QualType"@,
        Kind::RValueReferenceType => "RValueReferenceType"@,
        Kind::RecordDecl => "RecordDecl"@,
        Kind::RecordType => "RecordType"@,
        Kind::RecoveryExpr => "RecoveryExpr"@,
        Kind::RequiresExpr => "RequiresExpr"@,
        Kind::RestrictAttr => "RestrictAttr"@,
        Kind::ReturnStmt => "ReturnStmt"@,
        Kind::ReturnsNonNullAttr => "ReturnsNonNullAttr"@,
        Kind::ReturnsTwiceAttr => "ReturnsTwiceAttr"@,
        Kind::ShuffleVectorExpr => "ShuffleVectorExpr"@,
        Kind::SimpleRequirement => "SimpleRequirement"@,
        Kind::SizeOfPackExpr => "SizeOfPackExpr"@,
        Kind::StaticAssertDecl => "StaticAssertDecl"@,
        Kind::StringLiteral => "StringLiteral"@,
        Kind::SubstNonTypeTemplateParmExpr => "SubstNonTypeTemplateParmExpr"@,
        Kind::SubstTemplateTypeParmType => "SubstTemplateTypeParmType"@,
        Kind::SwiftAttrAttr => "SwiftAttrAttr"@,
        Kind::SwitchStmt => "SwitchStmt"@,
        Kind::TargetAttr => "TargetAttr"@,
        Kind::TemplateArgument => "TemplateArgument"@,
        Kind::TemplateSpecializationType => "TemplateSpecializationType"@,
        Kind::TemplateTemplateParmDecl => "TemplateTemplateParmDecl"@,
        Kind::TemplateTypeParmDecl => "TemplateTypeParmDecl"@,
        Kind::TemplateTypeParmType => "TemplateTypeParmType"@,
        Kind::TextComment => "TextComment"@,
        Kind::TranslationUnitDecl => "TranslationUnitDecl"@,
        Kind::TypeAliasDecl => "TypeAliasDecl"@,
        Kind::TypeAliasTemplateDecl => "TypeAliasTemplateDecl"@,
        Kind::TypeOfExprType => "TypeOfExprType"@,
        Kind::TypeRequirement => "TypeRequirement"@,
        Kind::TypeTraitExpr => "TypeTraitExpr"@,
        Kind::TypeVisibilityAttr => "TypeVisibilityAttr"@,
        Kind::TypedefDecl => "TypedefDecl"@,
        Kind::TypedefType => "TypedefType"@,
        Kind::UnaryExprOrTypeTraitExpr => "UnaryExprOrTypeTraitExpr"@,
        Kind::UnaryOperator => "UnaryOperator"@,
        Kind::UnaryTransformType => "UnaryTransformType"@,
        Kind::UnavailableAttr => "UnavailableAttr"@,
        Kind::UnlikelyAttr => "UnlikelyAttr"@,
        Kind::UnresolvedLookupExpr => "UnresolvedLookupExpr"@,
        Kind::UnresolvedMemberExpr => "UnresolvedMemberExpr"@,
        Kind::UnresolvedUsingIfExistsDecl => "UnresolvedUsingIfExistsDecl"@,
        Kind::UnresolvedUsingTypenameDecl => "UnresolvedUsingTypenameDecl"@,
        Kind::UnresolvedUsingValueDecl => "UnresolvedUsingValueDecl"@,
        Kind::UnusedAttr => "UnusedAttr"@,
        Kind::UserDefinedLiteral => "UserDefinedLiteral"@,
        Kind::UsingDecl => "UsingDecl"@,
        Kind::UsingDirectiveDecl => "UsingDirectiveDecl"@,
        Kind::UsingEnumDecl => "UsingEnumDecl"@,
        Kind::UsingIfExistsAttr => "UsingIfExistsAttr"@,
        Kind::UsingShadowDecl => "UsingShadowDecl"@,
        Kind::UsingType => "UsingType"@,
        Kind::VTablePointerAuthenticationAttr => "VTablePointerAuthenticationAttr"@,
        Kind::VarDecl => "VarDecl"@,
        Kind::VarTemplateDecl => "VarTemplateDecl"@,
        Kind::VarTemplatePartialSpecializationDecl => "VarTemplatePartialSpecializationDecl"@,
        Kind::VarTemplateSpecializationDecl => "VarTemplateSpecializationDecl"@,
        Kind::VectorType => "VectorType"@,
        Kind::VerbatimLineComment => "VerbatimLineComment"@,
        Kind::VisibilityAttr => "VisibilityAttr"@,
        Kind::WarnUnusedResultAttr => "WarnUnusedResultAttr"@,
        Kind::WeakAttr => "WeakAttr"@,
        Kind::WeakImportAttr => "WeakImportAttr"@,
        Kind::WeakRefAttr => "WeakRefAttr"@,
        Kind::WhileStmt => "WhileStmt"@,
        Kind::null => "null"@,
    }
}

/// Part of the catalogue membership test.
pub open spec fn in_catalog_0(s: Seq<char>) -> bool {
    ||| s == "AbiTagAttr"@
    ||| s == "AccessSpecDecl"@
    ||| s == "AliasAttr"@
    ||| s == "AlignedAttr"@
    ||| s == "AllocAlignAttr"@
    ||| s == "AllocSizeAttr"@
    ||| s == "AlwaysInlineAttr"@
    ||| s == "ArrayInitIndexExpr"@
    ||| s == "ArrayInitLoopExpr"@
    ||| s == "ArraySubscriptExpr"@
    ||| s == "ArrayTypeTraitExpr"@
    ||| s == "AsmLabelAttr"@
    ||| s == "AtomicExpr"@
    ||| s == "AtomicType"@
    ||| s == "AttributedStmt"@
    ||| s == "AttributedType"@
    ||| s == "AutoType"@
    ||| s == "AvailabilityAttr"@
    ||| s == "BinaryOperator"@
    ||| s == "BindingDecl"@
    ||| s == "BlockPointerType"@
    ||| s == "BreakStmt"@
    ||| s == "BuiltinAttr"@
    ||| s == "BuiltinBitCastExpr"@
    ||| s == "BuiltinTemplateDecl"@
    ||| s == "BuiltinType"@
    ||| s == "CStyleCastExpr"@
    ||| s == "CXX11NoReturnAttr"@
}

/// Part of the catalogue membership test.
pub open spec fn in_catalog_1(s: Seq<char>) -> bool {
    ||| s == "CXXBindTemporaryExpr"@
    ||| s == "CXXBoolLiteralExpr"@
    ||| s == "CXXCatchStmt"@
    ||| s == "CXXConstCastExpr"@
    ||| s == "CXXConstructExpr"@
    ||| s == "CXXConstructorDecl"@
    ||| s == "CXXConversionDecl"@
    ||| s == "CXXCtorInitializer"@
    ||| s == "CXXDeductionGuideDecl"@
    ||| s == "CXXDefaultArgExpr"@
    ||| s == "CXXDefaultInitExpr"@
    ||| s == "CXXDeleteExpr"@
    ||| s == "CXXDependentScopeMemberExpr"@
    ||| s == "CXXDestructorDecl"@
    ||| s == "CXXDynamicCastExpr"@
    ||| s == "CXXFoldExpr"@
    ||| s == "CXXForRangeStmt"@
    ||| s == "CXXFunctionalCastExpr"@
    ||| s == "CXXInheritedCtorInitExpr"@
    ||| s == "CXXMemberCallExpr"@
    ||| s == "CXXMethodDecl"@
    ||| s == "CXXNewExpr"@
    ||| s == "CXXNoexceptExpr"@
    ||| s == "CXXNullPtrLiteralExpr"@
    ||| s == "CXXOperatorCallExpr"@
    ||| s == "CXXPseudoDestructorExpr"@
    ||| s == "CXXRecordDecl"@
    ||| s == "CXXReinterpretCastExpr"@
}

/// Part of the catalogue membership test.
pub open spec fn in_catalog_2(s: Seq<char>) -> bool {
    ||| s == "CXXRewrittenBinaryOperator"@
    ||| s == "CXXScalarValueInitExpr"@
    ||| s == "CXXStaticCastExpr"@
    ||| s == "CXXTemporaryObjectExpr"@
    ||| s == "CXXThisExpr"@
    ||| s == "CXXThrowExpr"@
    ||| s == "CXXTryStmt"@
    ||| s == "CXXTypeidExpr"@
    ||| s == "CXXUnresolvedConstructExpr"@
    ||| s == "CallExpr"@
    ||| s == "CallbackAttr"@
    ||| s == "CaseStmt"@
    ||| s == "CharacterLiteral"@
    ||| s == "ClassTemplateDecl"@
    ||| s == "ClassTemplatePartialSpecializationDecl"@
    ||| s == "ClassTemplateSpecializationDecl"@
    ||| s == "ColdAttr"@
    ||| s == "ComplexType"@
    ||| s == "CompoundAssignOperator"@
    ||| s == "CompoundLiteralExpr"@
    ||| s == "CompoundRequirement"@
    ||| s == "CompoundStmt"@
    ||| s == "ConceptDecl"@
    ||| s == "ConceptSpecializationExpr"@
    ||| s == "ConditionalOperator"@
    ||| s == "ConstAttr"@
    ||| s == "ConstantArrayType"@
    ||| s == "ConstantExpr"@
}

/// Part of the catalogue membership test.
pub open spec fn in_catalog_3(s: Seq<char>) -> bool {
    ||| s == "ConstructorUsingShadowDecl"@
    ||| s == "ContinueStmt"@
    ||| s == "ConvertVectorExpr"@
    ||| s == "DLLImportAttr"@
    ||| s == "DecayedType"@
    ||| s == "DeclRefExpr"@
    ||| s == "DeclStmt"@
    ||| s == "DecltypeType"@
    ||| s == "DecompositionDecl"@
    ||| s == "DefaultStmt"@
    ||| s == "DependentNameType"@
    ||| s == "DependentScopeDeclRefExpr"@
    ||| s == "DependentSizedArrayType"@
    ||| s == "DependentTemplateSpecializationType"@
    ||| s == "DeprecatedAttr"@
    ||| s == "DiagnoseIfAttr"@
    ||| s == "DisableTailCallsAttr"@
    ||| s == "DoStmt"@
    ||| s == "ElaboratedType"@
    ||| s == "EmptyDecl"@
    ||| s == "EnableIfAttr"@
    ||| s == "EnumConstantDecl"@
    ||| s == "EnumDecl"@
    ||| s == "EnumType"@
    ||| s == "ExprWithCleanups"@
    ||| s == "FallThroughAttr"@
    ||| s == "FieldDecl"@
    ||| s == "FinalAttr"@
}

/// Part of the catalogue membership test.
pub open spec fn in_catalog_4(s: Seq<char>) -> bool {
    ||| s == "FloatingLiteral"@
    ||| s == "ForStmt"@
    ||| s == "FormatArgAttr"@
    ||| s == "FormatAttr"@
    ||| s == "FriendDecl"@
    ||| s == "FullComment"@
    ||| s == "FunctionDecl"@
    ||| s == "FunctionProtoType"@
    ||| s == "FunctionTemplateDecl"@
    ||| s == "GCCAsmStmt"@
    ||| s == "GNUInlineAttr"@
    ||| s == "GNUNullExpr"@
    ||| s == "GotoStmt"@
    ||| s == "HTMLEndTagComment"@
    ||| s == "HTMLStartTagComment"@
    ||| s == "IfStmt"@
    ||| s == "ImplicitCastExpr"@
    ||| s == "ImplicitValueInitExpr"@
    ||| s == "IncompleteArrayType"@
    ||| s == "IndirectFieldDecl"@
    ||| s == "InitListExpr"@
    ||| s == "InjectedClassNameType"@
    ||| s == "InlineCommandComment"@
    ||| s == "IntegerLiteral"@
    ||| s == "InternalLinkageAttr"@
    ||| s == "LValueReferenceType"@
    ||| s == "LabelStmt"@
    ||| s == "LambdaExpr"@
}

/// Part of the catalogue membership test.
pub open spec fn in_catalog_5(s: Seq<char>) -> bool {
    ||| s == "LikelyAttr"@
    ||| s == "LinkageSpecDecl"@
    ||| s == "MaterializeTemporaryExpr"@
    ||| s == "MaxFieldAlignmentAttr"@
    ||| s == "MayAliasAttr"@
    ||| s == "MemberExpr"@
    ||| s == "MemberPointerType"@
    ||| s == "MinVectorWidthAttr"@
    ||| s == "ModeAttr"@
    ||| s == "NamespaceAliasDecl"@
    ||| s == "NamespaceDecl"@
    ||| s == "NestedRequirement"@
    ||| s == "NoAliasAttr"@
    ||| s == "NoDebugAttr"@
    ||| s == "NoEscapeAttr"@
    ||| s == "NoInlineAttr"@
    ||| s == "NoSanitizeAttr"@
    ||| s == "NoThrowAttr"@
    ||| s == "NoUniqueAddressAttr"@
    ||| s == "NonNullAttr"@
    ||| s == "NonTypeTemplateParmDecl"@
    ||| s == "NullStmt"@
    ||| s == "OffsetOfExpr"@
    ||| s == "OpaqueValueExpr"@
    ||| s == "OverrideAttr"@
    ||| s == "OwnerAttr"@
    ||| s == "PackExpansionExpr"@
    ||| s == "PackExpansionType"@
}

/// Part of the catalogue membership test.
pub open spec fn in_catalog_6(s: Seq<char>) -> bool {
    ||| s == "PackedAttr"@
    ||| s == "ParagraphComment"@
    ||| s == "ParamCommandComment"@
    ||| s == "ParenExpr"@
    ||| s == "ParenListExpr"@
    ||| s == "ParenType"@
    ||| s == "ParmVarDecl"@
    ||| s == "PointerAttr"@
    ||| s == "PointerType"@
    ||| s == "PredefinedExpr"@
    ||| s == "PreferredNameAttr"@
    ||| s == "PureAttr"@
    ||| s == "QualType"@
    ||| s == "RValueReferenceType"@
    ||| s == "RecordDecl"@
    ||| s == "RecordType"@
    ||| s == "RecoveryExpr"@
    ||| s == "RequiresExpr"@
    ||| s == "RestrictAttr"@
    ||| s == "ReturnStmt"@
    ||| s == "ReturnsNonNullAttr"@
    ||| s == "ReturnsTwiceAttr"@
    ||| s == "ShuffleVectorExpr"@
    ||| s == "SimpleRequirement"@
    ||| s == "SizeOfPackExpr"@
    ||| s == "StaticAssertDecl"@
    ||| s == "StringLiteral"@
    ||| s == "SubstNonTypeTemplateParmExpr"@
}

/// Part of the catalogue membership test.
pub open spec fn in_catalog_7(s: Seq<char>) -> bool {
    ||| s == "SubstTemplateTypeParmType"@
    ||| s == "SwiftAttrAttr"@
    ||| s == "SwitchStmt"@
    ||| s == "TargetAttr"@
    ||| s == "TemplateArgument"@
    ||| s == "TemplateSpecializationType"@
    ||| s == "TemplateTemplateParmDecl"@
    ||| s == "TemplateTypeParmDecl"@
    ||| s == "TemplateTypeParmType"@
    ||| s == "TextComment"@
    ||| s == "TranslationUnitDecl"@
    ||| s == "TypeAliasDecl"@
    ||| s == "TypeAliasTemplateDecl"@
    ||| s == "TypeOfExprType"@
    ||| s == "TypeRequirement"@
    ||| s == "TypeTraitExpr"@
    ||| s == "TypeVisibilityAttr"@
    ||| s == "TypedefDecl"@
    ||| s == "TypedefType"@
    ||| s == "UnaryExprOrTypeTraitExpr"@
    ||| s == "UnaryOperator"@
    ||| s == "UnaryTransformType"@
    ||| s == "UnavailableAttr"@
    ||| s == "UnlikelyAttr"@
    ||| s == "UnresolvedLookupExpr"@
    ||| s == "UnresolvedMemberExpr"@
    ||| s == "UnresolvedUsingIfExistsDecl"@
    ||| s == "UnresolvedUsingTypenameDecl"@
}

/// Part of the catalogue membership test.
pub open spec fn in_catalog_8(s: Seq<char>) -> bool {
    ||| s == "UnresolvedUsingValueDecl"@
    ||| s == "UnusedAttr"@
    ||| s == "UserDefinedLiteral"@
    ||| s == "UsingDecl"@
    ||| s == "UsingDirectiveDecl"@
    ||| s == "UsingEnumDecl"@
    ||| s == "UsingIfExistsAttr"@
    ||| s == "UsingShadowDecl"@
    ||| s == "UsingType"@
    ||| s == "VTablePointerAuthenticationAttr"@
    ||| s == "VarDecl"@
    ||| s == "VarTemplateDecl"@
    ||| s == "VarTemplatePartialSpecializationDecl"@
    ||| s == "VarTemplateSpecializationDecl"@
    ||| s == "VectorType"@
    ||| s == "VerbatimLineComment"@
    ||| s == "VisibilityAttr"@
    ||| s == "WarnUnusedResultAttr"@
    ||| s == "WeakAttr"@
    ||| s == "WeakImportAttr"@
    ||| s == "WeakRefAttr"@
    ||| s == "WhileStmt"@
}

/// Whether a string names a catalogue entry (`null` is not one).
pub open spec fn in_catalog(s: Seq<char>) -> bool {
    ||| in_catalog_0(s)
    ||| in_catalog_1(s)
    ||| in_catalog_2(s)
    ||| in_catalog_3(s)
    ||| in_catalog_4(s)
    ||| in_catalog_5(s)
    ||| in_catalog_6(s)
    ||| in_catalog_7(s)
    ||| in_catalog_8(s)
}

/// Character-wise string equality, tied to view equality.
pub fn str_eq(a: &str, b: &str) -> (r: bool)
    ensures
        r == (a@ == b@),
{
    let n = a.unicode_len();
    if n != b.unicode_len() {
        return false;
    }
    let mut i: usize = 0;
    while i < n
        invariant
            n == a@.len(),
            n == b@.len(),
            0 <= i <= n,
            forall|j: int| 0 <= j < i ==> a@[j] == b@[j],
        decreases n - i,
    {
        if a.get_char(i) != b.get_char(i) {
            return false;
        }
        i = i + 1;
    }
    proof {
        assert(a@ =~= b@);
    }
    true
}

impl Kind {
    /// The catalogue name this entry stands for (`"null"` for the sentinel).
    pub fn as_str(&self) -> (r: &'static str)
        ensures
            r@ == kind_name(*self),
    {
        match self {
            Kind::AbiTagAttr => "AbiTagAttr",
            Kind::AccessSpecDecl => "AccessSpecDecl",
            Kind::AliasAttr => "AliasAttr",
            Kind::AlignedAttr => "AlignedAttr",
            Kind::AllocAlignAttr => "AllocAlignAttr",
            Kind::AllocSizeAttr => "AllocSizeAttr",
            Kind::AlwaysInlineAttr => "AlwaysInlineAttr",
            Kind::ArrayInitIndexExpr => "ArrayInitIndexExpr",
            Kind::ArrayInitLoopExpr => "ArrayInitLoopExpr",
            Kind::ArraySubscriptExpr => "ArraySubscriptExpr",
            Kind::ArrayTypeTraitExpr => "ArrayTypeTraitExpr",
            Kind::AsmLabelAttr => "AsmLabelAttr",
            Kind::AtomicExpr => "AtomicExpr",
            Kind::AtomicType => "AtomicType",
            Kind::AttributedStmt => "AttributedStmt",
            Kind::AttributedType => "AttributedType",
            Kind::AutoType => "AutoType",
            Kind::AvailabilityAttr => "AvailabilityAttr",
            Kind::BinaryOperator => "BinaryOperator",
            Kind::BindingDecl => "BindingDecl",
            Kind::BlockPointerType => "BlockPointerType",
            Kind::BreakStmt => "BreakStmt",
            Kind::BuiltinAttr => "BuiltinAttr",
            Kind::BuiltinBitCastExpr => "BuiltinBitCastExpr",
            Kind::BuiltinTemplateDecl => "BuiltinTemplateDecl",
            Kind::BuiltinType => "BuiltinType",
            Kind::CStyleCastExpr => "CStyleCastExpr",
            Kind::CXX11NoReturnAttr => "CXX11NoReturnAttr",
            Kind::CXXBindTemporaryExpr => "CXXBindTemporaryExpr",
            Kind::CXXBoolLiteralExpr => "CXXBoolLiteralExpr",
            Kind::CXXCatchStmt => "CXXCatchStmt",
            Kind::CXXConstCastExpr => "CXXConstCastExpr",
            Kind::CXXConstructExpr => "CXXConstructExpr",
            Kind::CXXConstructorDecl => "CXXConstructorDecl",
            Kind::CXXConversionDecl => "CXXConversionDecl",
            Kind::CXXCtorInitializer => "CXXCtorInitializer",
            Kind::CXXDeductionGuideDecl => "CXXDeductionGuideDecl",
            Kind::CXXDefaultArgExpr => "CXXDefaultArgExpr",
            Kind::CXXDefaultInitExpr => "CXXDefaultInitExpr",
            Kind::CXXDeleteExpr => "CXXDeleteExpr",
            Kind::CXXDependentScopeMemberExpr => "CXXDependentScopeMemberExpr",
            Kind::CXXDestructorDecl => "CXXDestructorDecl",
            Kind::CXXDynamicCastExpr => "CXXDynamicCastExpr",
            Kind::CXXFoldExpr => "CXXFoldExpr",
            Kind::CXXForRangeStmt => "CXXForRangeStmt",
            Kind::CXXFunctionalCastExpr => "CXXFunctionalCastExpr",
            Kind::CXXInheritedCtorInitExpr => "CXXInheritedCtorInitExpr",
            Kind::CXXMemberCallExpr => "CXXMemberCallExpr",
            Kind::CXXMethodDecl => "CXXMethodDecl",
            Kind::CXXNewExpr => "CXXNewExpr",
            Kind::CXXNoexceptExpr => "CXXNoexceptExpr",
            Kind::CXXNullPtrLiteralExpr => "CXXNullPtrLiteralExpr",
            Kind::CXXOperatorCallExpr => "CXXOperatorCallExpr",
            Kind::CXXPseudoDestructorExpr => "CXXPseudoDestructorExpr",
            Kind::CXXRecordDecl => "CXXRecordDecl",
            Kind::CXXReinterpretCastExpr => "CXXReinterpretCastExpr",
            Kind::CXXRewrittenBinaryOperator => "CXXRewrittenBinaryOperator",
            Kind::CXXScalarValueInitExpr => "CXXScalarValueInitExpr",
            Kind::CXXStaticCastExpr => "CXXStaticCastExpr",
            Kind::CXXTemporaryObjectExpr => "CXXTemporaryObjectExpr",
            Kind::CXXThisExpr => "CXXThisExpr",
            Kind::CXXThrowExpr => "CXXThrowExpr",
            Kind::CXXTryStmt => "CXXTryStmt",
            Kind::CXXTypeidExpr => "CXXTypeidExpr",
            Kind::CXXUnresolvedConstructExpr => "CXXUnresolvedConstructExpr",
            Kind::CallExpr => "CallExpr",
            Kind::CallbackAttr => "CallbackAttr",
            Kind::CaseStmt => "CaseStmt",
            Kind::CharacterLiteral => "CharacterLiteral",
            Kind::ClassTemplateDecl => "ClassTemplateDecl",
            Kind::ClassTemplatePartialSpecializationDecl => "ClassTemplatePartialSpecializationDecl",
            Kind::ClassTemplateSpecializationDecl => "ClassTemplateSpecializationDecl",
            Kind::ColdAttr => "ColdAttr",
            Kind::ComplexType => "ComplexType",
            Kind::CompoundAssignOperator => "CompoundAssignOperator",
            Kind::CompoundLiteralExpr => "CompoundLiteralExpr",
            Kind::CompoundRequirement => "CompoundRequirement",
            Kind::CompoundStmt => "CompoundStmt",
            Kind::ConceptDecl => "ConceptDecl",
            Kind::ConceptSpecializationExpr => "ConceptSpecializationExpr",
            Kind::ConditionalOperator => "ConditionalOperator",
            Kind::ConstAttr => "ConstAttr",
            Kind::ConstantArrayType => "ConstantArrayType",
            Kind::ConstantExpr => "ConstantExpr",
            Kind::ConstructorUsingShadowDecl => "ConstructorUsingShadowDecl",
            Kind::ContinueStmt => "ContinueStmt",
            Kind::ConvertVectorExpr => "ConvertVectorExpr",
            Kind::DLLImportAttr => "DLLImportAttr",
            Kind::DecayedType => "DecayedType",
            Kind::DeclRefExpr => "DeclRefExpr",
            Kind::DeclStmt => "DeclStmt",
            Kind::DecltypeType => "DecltypeType",
            Kind::DecompositionDecl => "DecompositionDecl",
            Kind::DefaultStmt => "DefaultStmt",
            Kind::DependentNameType => "DependentNameType",
            Kind::DependentScopeDeclRefExpr => "DependentScopeDeclRefExpr",
            Kind::DependentSizedArrayType => "DependentSizedArrayType",
            Kind::DependentTemplateSpecializationType => "DependentTemplateSpecializationType",
            Kind::DeprecatedAttr => "DeprecatedAttr",
            Kind::DiagnoseIfAttr => "DiagnoseIfAttr",
            Kind::DisableTailCallsAttr => "DisableTailCallsAttr",
            Kind::DoStmt => "DoStmt",
            Kind::ElaboratedType => "ElaboratedType",
            Kind::EmptyDecl => "EmptyDecl",
            Kind::EnableIfAttr => "EnableIfAttr",
            Kind::EnumConstantDecl => "EnumConstantDecl",
            Kind::EnumDecl => "EnumDecl",
            Kind::EnumType => "EnumType",
            Kind::ExprWithCleanups => "ExprWithCleanups",
            Kind::FallThroughAttr => "FallThroughAttr",
            Kind::FieldDecl => "FieldDecl",
            Kind::FinalAttr => "FinalAttr",
            Kind::FloatingLiteral => "FloatingLiteral",
            Kind::ForStmt => "ForStmt",
            Kind::FormatArgAttr => "FormatArgAttr",
            Kind::FormatAttr => "FormatAttr",
            Kind::FriendDecl => "FriendDecl",
            Kind::FullComment => "FullComment",
            Kind::FunctionDecl => "FunctionDecl",
            Kind::FunctionProtoType => "FunctionProtoType",
            Kind::FunctionTemplateDecl => "FunctionTemplateDecl",
            Kind::GCCAsmStmt => "GCCAsmStmt",
            Kind::GNUInlineAttr => "GNUInlineAttr",
            Kind::GNUNullExpr => "GNUNullExpr",
            Kind::GotoStmt => "GotoStmt",
            Kind::HTMLEndTagComment => "HTMLEndTagComment",
            Kind::HTMLStartTagComment => "HTMLStartTagComment",
            Kind::IfStmt => "IfStmt",
            Kind::ImplicitCastExpr => "ImplicitCastExpr",
            Kind::ImplicitValueInitExpr => "ImplicitValueInitExpr",
            Kind::IncompleteArrayType => "IncompleteArrayType",
            Kind::IndirectFieldDecl => "IndirectFieldDecl",
            Kind::InitListExpr => "InitListExpr",
            Kind::InjectedClassNameType => "InjectedClassNameType",
            Kind::InlineCommandComment => "InlineCommandComment",
            Kind::IntegerLiteral => "IntegerLiteral",
            Kind::InternalLinkageAttr => "InternalLinkageAttr",
            Kind::LValueReferenceType => "LValueReferenceType",
            Kind::LabelStmt => "LabelStmt",
            Kind::LambdaExpr => "LambdaExpr",
            Kind::LikelyAttr => "LikelyAttr",
            Kind::LinkageSpecDecl => "LinkageSpecDecl",
            Kind::MaterializeTemporaryExpr => "MaterializeTemporaryExpr",
            Kind::MaxFieldAlignmentAttr => "MaxFieldAlignmentAttr",
            Kind::MayAliasAttr => "MayAliasAttr",
            Kind::MemberExpr => "MemberExpr",
            Kind::MemberPointerType => "MemberPointerType",
            Kind::MinVectorWidthAttr => "MinVectorWidthAttr",
            Kind::ModeAttr => "ModeAttr",
            Kind::NamespaceAliasDecl => "NamespaceAliasDecl",
            Kind::NamespaceDecl => "NamespaceDecl",
            Kind::NestedRequirement => "NestedRequirement",
            Kind::NoAliasAttr => "NoAliasAttr",
            Kind::NoDebugAttr => "NoDebugAttr",
            Kind::NoEscapeAttr => "NoEscapeAttr",
            Kind::NoInlineAttr => "NoInlineAttr",
            Kind::NoSanitizeAttr => "NoSanitizeAttr",
            Kind::NoThrowAttr => "NoThrowAttr",
            Kind::NoUniqueAddressAttr => "NoUniqueAddressAttr",
            Kind::NonNullAttr => "NonNullAttr",
            Kind::NonTypeTemplateParmDecl => "NonTypeTemplateParmDecl",
            Kind::NullStmt => "NullStmt",
            Kind::OffsetOfExpr => "OffsetOfExpr",
            Kind::OpaqueValueExpr => "OpaqueValueExpr",
            Kind::OverrideAttr => "OverrideAttr",
            Kind::OwnerAttr => "OwnerAttr",
            Kind::PackExpansionExpr => "PackExpansionExpr",
            Kind::PackExpansionType => "PackExpansionType",
            Kind::PackedAttr => "PackedAttr",
            Kind::ParagraphComment => "ParagraphComment",
            Kind::ParamCommandComment => "ParamCommandComment",
            Kind::ParenExpr => "ParenExpr",
            Kind::ParenListExpr => "ParenListExpr",
            Kind::ParenType => "ParenType",
            Kind::ParmVarDecl => "ParmVarDecl",
            Kind::PointerAttr => "PointerAttr",
            Kind::PointerType => "PointerType",
            Kind::PredefinedExpr => "PredefinedExpr",
            Kind::PreferredNameAttr => "PreferredNameAttr",
            Kind::PureAttr => "PureAttr",
            Kind::QualType => "QualType",
            Kind::RValueReferenceType => "RValueReferenceType",
            Kind::RecordDecl => "RecordDecl",
            Kind::RecordType => "RecordType",
            Kind::RecoveryExpr => "RecoveryExpr",
            Kind::RequiresExpr => "RequiresExpr",
            Kind::RestrictAttr => "RestrictAttr",
            Kind::ReturnStmt => "ReturnStmt",
            Kind::ReturnsNonNullAttr => "ReturnsNonNullAttr",
            Kind::ReturnsTwiceAttr => "ReturnsTwiceAttr",
            Kind::ShuffleVectorExpr => "ShuffleVectorExpr",
            Kind::SimpleRequirement => "SimpleRequirement",
            Kind::SizeOfPackExpr => "SizeOfPackExpr",
            Kind::StaticAssertDecl => "StaticAssertDecl",
            Kind::StringLiteral => "StringLiteral",
            Kind::SubstNonTypeTemplateParmExpr => "SubstNonTypeTemplateParmExpr",
            Kind::SubstTemplateTypeParmType => "SubstTemplateTypeParmType",
            Kind::SwiftAttrAttr => "SwiftAttrAttr",
            Kind::SwitchStmt => "SwitchStmt",
            Kind::TargetAttr => "TargetAttr",
            Kind::TemplateArgument => "TemplateArgument",
            Kind::TemplateSpecializationType => "TemplateSpecializationType",
            Kind::TemplateTemplateParmDecl => "TemplateTemplateParmDecl",
            Kind::TemplateTypeParmDecl => "TemplateTypeParmDecl",
            Kind::TemplateTypeParmType => "TemplateTypeParmType",
            Kind::TextComment => "TextComment",
            Kind::TranslationUnitDecl => "TranslationUnitDecl",
            Kind::TypeAliasDecl => "TypeAliasDecl",
            Kind::TypeAliasTemplateDecl => "TypeAliasTemplateDecl",
            Kind::TypeOfExprType => "TypeOfExprType",
            Kind::TypeRequirement => "TypeRequirement",
            Kind::TypeTraitExpr => "TypeTraitExpr",
            Kind::TypeVisibilityAttr => "TypeVisibilityAttr",
            Kind::TypedefDecl => "TypedefDecl",
            Kind::TypedefType => "TypedefType",
            Kind::UnaryExprOrTypeTraitExpr => "UnaryExprOrTypeTraitExpr",
            Kind::UnaryOperator => "UnaryOperator",
            Kind::UnaryTransformType => "UnaryTransformType",
            Kind::UnavailableAttr => "UnavailableAttr",
            Kind::UnlikelyAttr => "UnlikelyAttr",
            Kind::UnresolvedLookupExpr => "UnresolvedLookupExpr",
            Kind::UnresolvedMemberExpr => "UnresolvedMemberExpr",
            Kind::UnresolvedUsingIfExistsDecl => "UnresolvedUsingIfExistsDecl",
            Kind::UnresolvedUsingTypenameDecl => "UnresolvedUsingTypenameDecl",
            Kind::UnresolvedUsingValueDecl => "UnresolvedUsingValueDecl",
            Kind::UnusedAttr => "UnusedAttr",
            Kind::UserDefinedLiteral => "UserDefinedLiteral",
            Kind::UsingDecl => "UsingDecl",
            Kind::UsingDirectiveDecl => "UsingDirectiveDecl",
            Kind::UsingEnumDecl => "UsingEnumDecl",
            Kind::UsingIfExistsAttr => "UsingIfExistsAttr",
            Kind::UsingShadowDecl => "UsingShadowDecl",
            Kind::UsingType => "UsingType",
            Kind::VTablePointerAuthenticationAttr => "VTablePointerAuthenticationAttr",
            Kind::VarDecl => "VarDecl",
            Kind::VarTemplateDecl => "VarTemplateDecl",
            Kind::VarTemplatePartialSpecializationDecl => "VarTemplatePartialSpecializationDecl",
            Kind::VarTemplateSpecializationDecl => "VarTemplateSpecializationDecl",
            Kind::VectorType => "VectorType",
            Kind::VerbatimLineComment => "VerbatimLineComment",
            Kind::VisibilityAttr => "VisibilityAttr",
            Kind::WarnUnusedResultAttr => "WarnUnusedResultAttr",
            Kind::WeakAttr => "WeakAttr",
            Kind::WeakImportAttr => "WeakImportAttr",
            Kind::WeakRefAttr => "WeakRefAttr",
            Kind::WhileStmt => "WhileStmt",
            Kind::null => "null",
        }
    }

    /// Look a string up in the catalogue: `Ok` exactly on catalogue names,
    /// and the entry found carries that very name.
    pub fn from_str(s: &str) -> (r: Result<Kind, ParseKindError>)
        ensures
            match r {
                Ok(k) => (kind_name(k) == s@ && in_catalog(s@) && !(k matches Kind::null)),
                Err(_) => !in_catalog(s@),
            },
    {
        if let Some(k) = Self::lookup_0(s) {
            return Ok(k);
        }
        if let Some(k) = Self::lookup_1(s) {
            return Ok(k);
        }
        if let Some(k) = Self::lookup_2(s) {
            return Ok(k);
        }
        if let Some(k) = Self::lookup_3(s) {
            return Ok(k);
        }
        if let Some(k) = Self::lookup_4(s) {
            return Ok(k);
        }
        if let Some(k) = Self::lookup_5(s) {
            return Ok(k);
        }
        if let Some(k) = Self::lookup_6(s) {
            return Ok(k);
        }
        if let Some(k) = Self::lookup_7(s) {
            return Ok(k);
        }
        if let Some(k) = Self::lookup_8(s) {
            return Ok(k);
        }
        Err(ParseKindError {})
    }

    /// Look `s` up in one part of the catalogue.
    fn lookup_0(s: &str) -> (r: Option<Kind>)
        ensures
            match r {
                Some(k) => (kind_name(k) == s@ && in_catalog_0(s@) && !(k matches Kind::null)),
                None => !in_catalog_0(s@),
            },
    {
        if str_eq(s, "AbiTagAttr") {
            Some(Kind::AbiTagAttr)
        } else if str_eq(s, "AccessSpecDecl") {
            Some(Kind::AccessSpecDecl)
        } else if str_eq(s, "AliasAttr") {
            Some(Kind::AliasAttr)
        } else if str_eq(s, "AlignedAttr") {
            Some(Kind::AlignedAttr)
        } else if str_eq(s, "AllocAlignAttr") {
            Some(Kind::AllocAlignAttr)
        } else if str_eq(s, "AllocSizeAttr") {
            Some(Kind::AllocSizeAttr)
        } else if str_eq(s, "AlwaysInlineAttr") {
            Some(Kind::AlwaysInlineAttr)
        } else if str_eq(s, "ArrayInitIndexExpr") {
            Some(Kind::ArrayInitIndexExpr)
        } else if str_eq(s, "ArrayInitLoopExpr") {
            Some(Kind::ArrayInitLoopExpr)
        } else if str_eq(s, "ArraySubscriptExpr") {
            Some(Kind::ArraySubscriptExpr)
        } else if str_eq(s, "ArrayTypeTraitExpr") {
            Some(Kind::ArrayTypeTraitExpr)
        } else if str_eq(s, "AsmLabelAttr") {
            Some(Kind::AsmLabelAttr)
        } else if str_eq(s, "AtomicExpr") {
            Some(Kind::AtomicExpr)
        } else if str_eq(s, "AtomicType") {
            Some(Kind::AtomicType)
        } else if str_eq(s, "AttributedStmt") {
            Some(Kind::AttributedStmt)
        } else if str_eq(s, "AttributedType") {
            Some(Kind::AttributedType)
        } else if str_eq(s, "AutoType") {
            Some(Kind::AutoType)
        } else if str_eq(s, "AvailabilityAttr") {
            Some(Kind::AvailabilityAttr)
        } else if str_eq(s, "BinaryOperator") {
            Some(Kind::BinaryOperator)
        } else if str_eq(s, "BindingDecl") {
            Some(Kind::BindingDecl)
        } else if str_eq(s, "BlockPointerType") {
            Some(Kind::BlockPointerType)
        } else if str_eq(s, "BreakStmt") {
            Some(Kind::BreakStmt)
        } else if str_eq(s, "BuiltinAttr") {
            Some(Kind::BuiltinAttr)
        } else if str_eq(s, "BuiltinBitCastExpr") {
            Some(Kind::BuiltinBitCastExpr)
        } else if str_eq(s, "BuiltinTemplateDecl") {
            Some(Kind::BuiltinTemplateDecl)
        } else if str_eq(s, "BuiltinType") {
            Some(Kind::BuiltinType)
        } else if str_eq(s, "CStyleCastExpr") {
            Some(Kind::CStyleCastExpr)
        } else if str_eq(s, "CXX11NoReturnAttr") {
            Some(Kind::CXX11NoReturnAttr)
        } else {
            None
        }
    }

    /// Look `s` up in one part of the catalogue.
    fn lookup_1(s: &str) -> (r: Option<Kind>)
        ensures
            match r {
                Some(k) => (kind_name(k) == s@ && in_catalog_1(s@) && !(k matches Kind::null)),
                None => !in_catalog_1(s@),
            },
    {
        if str_eq(s, "CXXBindTemporaryExpr") {
            Some(Kind::CXXBindTemporaryExpr)
        } else if str_eq(s, "CXXBoolLiteralExpr") {
            Some(Kind::CXXBoolLiteralExpr)
        } else if str_eq(s, "CXXCatchStmt") {
            Some(Kind::CXXCatchStmt)
        } else if str_eq(s, "CXXConstCastExpr") {
            Some(Kind::CXXConstCastExpr)
        } else if str_eq(s, "CXXConstructExpr") {
            Some(Kind::CXXConstructExpr)
        } else if str_eq(s, "CXXConstructorDecl") {
            Some(Kind::CXXConstructorDecl)
        } else if str_eq(s, "CXXConversionDecl") {
            Some(Kind::CXXConversionDecl)
        } else if str_eq(s, "CXXCtorInitializer") {
            Some(Kind::CXXCtorInitializer)
        } else if str_eq(s, "CXXDeductionGuideDecl") {
            Some(Kind::CXXDeductionGuideDecl)
        } else if str_eq(s, "CXXDefaultArgExpr") {
            Some(Kind::CXXDefaultArgExpr)
        } else if str_eq(s, "CXXDefaultInitExpr") {
            Some(Kind::CXXDefaultInitExpr)
        } else if str_eq(s, "CXXDeleteExpr") {
            Some(Kind::CXXDeleteExpr)
        } else if str_eq(s, "CXXDependentScopeMemberExpr") {
            Some(Kind::CXXDependentScopeMemberExpr)
        } else if str_eq(s, "CXXDestructorDecl") {
            Some(Kind::CXXDestructorDecl)
        } else if str_eq(s, "CXXDynamicCastExpr") {
            Some(Kind::CXXDynamicCastExpr)
        } else if str_eq(s, "CXXFoldExpr") {
            Some(Kind::CXXFoldExpr)
        } else if str_eq(s, "CXXForRangeStmt") {
            Some(Kind::CXXForRangeStmt)
        } else if str_eq(s, "CXXFunctionalCastExpr") {
            Some(Kind::CXXFunctionalCastExpr)
        } else if str_eq(s, "CXXInheritedCtorInitExpr") {
            Some(Kind::CXXInheritedCtorInitExpr)
        } else if str_eq(s, "CXXMemberCallExpr") {
            Some(Kind::CXXMemberCallExpr)
        } else if str_eq(s, "CXXMethodDecl") {
            Some(Kind::CXXMethodDecl)
        } else if str_eq(s, "CXXNewExpr") {
            Some(Kind::CXXNewExpr)
        } else if str_eq(s, "CXXNoexceptExpr") {
            Some(Kind::CXXNoexceptExpr)
        } else if str_eq(s, "CXXNullPtrLiteralExpr") {
            Some(Kind::CXXNullPtrLiteralExpr)
        } else if str_eq(s, "CXXOperatorCallExpr") {
            Some(Kind::CXXOperatorCallExpr)
        } else if str_eq(s, "CXXPseudoDestructorExpr") {
            Some(Kind::CXXPseudoDestructorExpr)
        } else if str_eq(s, "CXXRecordDecl") {
            Some(Kind::CXXRecordDecl)
        } else if str_eq(s, "CXXReinterpretCastExpr") {
            Some(Kind::CXXReinterpretCastExpr)
        } else {
            None
        }
    }

    /// Look `s` up in one part of the catalogue.
    fn lookup_2(s: &str) -> (r: Option<Kind>)
        ensures
            match r {
                Some(k) => (kind_name(k) == s@ && in_catalog_2(s@) && !(k matches Kind::null)),
                None => !in_catalog_2(s@),
            },
    {
        if str_eq(s, "CXXRewrittenBinaryOperator") {
            Some(Kind::CXXRewrittenBinaryOperator)
        } else if str_eq(s, "CXXScalarValueInitExpr") {
            Some(Kind::CXXScalarValueInitExpr)
        } else if str_eq(s, "CXXStaticCastExpr") {
            Some(Kind::CXXStaticCastExpr)
        } else if str_eq(s, "CXXTemporaryObjectExpr") {
            Some(Kind::CXXTemporaryObjectExpr)
        } else if str_eq(s, "CXXThisExpr") {
            Some(Kind::CXXThisExpr)
        } else if str_eq(s, "CXXThrowExpr") {
            Some(Kind::CXXThrowExpr)
        } else if str_eq(s, "CXXTryStmt") {
            Some(Kind::CXXTryStmt)
        } else if str_eq(s, "CXXTypeidExpr") {
            Some(Kind::CXXTypeidExpr)
        } else if str_eq(s, "CXXUnresolvedConstructExpr") {
            Some(Kind::CXXUnresolvedConstructExpr)
        } else if str_eq(s, "CallExpr") {
            Some(Kind::CallExpr)
        } else if str_eq(s, "CallbackAttr") {
            Some(Kind::CallbackAttr)
        } else if str_eq(s, "CaseStmt") {
            Some(Kind::CaseStmt)
        } else if str_eq(s, "CharacterLiteral") {
            Some(Kind::CharacterLiteral)
        } else if str_eq(s, "ClassTemplateDecl") {
            Some(Kind::ClassTemplateDecl)
        } else if str_eq(s, "ClassTemplatePartialSpecializationDecl") {
            Some(Kind::ClassTemplatePartialSpecializationDecl)
        } else if str_eq(s, "ClassTemplateSpecializationDecl") {
            Some(Kind::ClassTemplateSpecializationDecl)
        } else if str_eq(s, "ColdAttr") {
            Some(Kind::ColdAttr)
        } else if str_eq(s, "ComplexType") {
            Some(Kind::ComplexType)
        } else if str_eq(s, "CompoundAssignOperator") {
            Some(Kind::CompoundAssignOperator)
        } else if str_eq(s, "CompoundLiteralExpr") {
            Some(Kind::CompoundLiteralExpr)
        } else if str_eq(s, "CompoundRequirement") {
            Some(Kind::CompoundRequirement)
        } else if str_eq(s, "CompoundStmt") {
            Some(Kind::CompoundStmt)
        } else if str_eq(s, "ConceptDecl") {
            Some(Kind::ConceptDecl)
        } else if str_eq(s, "ConceptSpecializationExpr") {
            Some(Kind::ConceptSpecializationExpr)
        } else if str_eq(s, "ConditionalOperator") {
            Some(Kind::ConditionalOperator)
        } else if str_eq(s, "ConstAttr") {
            Some(Kind::ConstAttr)
        } else if str_eq(s, "ConstantArrayType") {
            Some(Kind::ConstantArrayType)
        } else if str_eq(s, "ConstantExpr") {
            Some(Kind::ConstantExpr)
        } else {
            None
        }
    }

    /// Look `s` up in one part of the catalogue.
    fn lookup_3(s: &str) -> (r: Option<Kind>)
        ensures
            match r {
                Some(k) => (kind_name(k) == s@ && in_catalog_3(s@) && !(k matches Kind::null)),
                None => !in_catalog_3(s@),
            },
    {
        if str_eq(s, "ConstructorUsingShadowDecl") {
            Some(Kind::ConstructorUsingShadowDecl)
        } else if str_eq(s, "ContinueStmt") {
            Some(Kind::ContinueStmt)
        } else if str_eq(s, "ConvertVectorExpr") {
            Some(Kind::ConvertVectorExpr)
        } else if str_eq(s, "DLLImportAttr") {
            Some(Kind::DLLImportAttr)
        } else if str_eq(s, "DecayedType") {
            Some(Kind::DecayedType)
        } else if str_eq(s, "DeclRefExpr") {
            Some(Kind::DeclRefExpr)
        } else if str_eq(s, "DeclStmt") {
            Some(Kind::DeclStmt)
        } else if str_eq(s, "DecltypeType") {
            Some(Kind::DecltypeType)
        } else if str_eq(s, "DecompositionDecl") {
            Some(Kind::DecompositionDecl)
        } else if str_eq(s, "DefaultStmt") {
            Some(Kind::DefaultStmt)
        } else if str_eq(s, "DependentNameType") {
            Some(Kind::DependentNameType)
        } else if str_eq(s, "DependentScopeDeclRefExpr") {
            Some(Kind::DependentScopeDeclRefExpr)
        } else if str_eq(s, "DependentSizedArrayType") {
            Some(Kind::DependentSizedArrayType)
        } else if str_eq(s, "DependentTemplateSpecializationType") {
            Some(Kind::DependentTemplateSpecializationType)
        } else if str_eq(s, "DeprecatedAttr") {
            Some(Kind::DeprecatedAttr)
        } else if str_eq(s, "DiagnoseIfAttr") {
            Some(Kind::DiagnoseIfAttr)
        } else if str_eq(s, "DisableTailCallsAttr") {
            Some(Kind::DisableTailCallsAttr)
        } else if str_eq(s, "DoStmt") {
            Some(Kind::DoStmt)
        } else if str_eq(s, "ElaboratedType") {
            Some(Kind::ElaboratedType)
        } else if str_eq(s, "EmptyDecl") {
            Some(Kind::EmptyDecl)
        } else if str_eq(s, "EnableIfAttr") {
            Some(Kind::EnableIfAttr)
        } else if str_eq(s, "EnumConstantDecl") {
            Some(Kind::EnumConstantDecl)
        } else if str_eq(s, "EnumDecl") {
            Some(Kind::EnumDecl)
        } else if str_eq(s, "EnumType") {
            Some(Kind::EnumType)
        } else if str_eq(s, "ExprWithCleanups") {
            Some(Kind::ExprWithCleanups)
        } else if str_eq(s, "FallThroughAttr") {
            Some(Kind::FallThroughAttr)
        } else if str_eq(s, "FieldDecl") {
            Some(Kind::FieldDecl)
        } else if str_eq(s, "FinalAttr") {
            Some(Kind::FinalAttr)
        } else {
            None
        }
    }

    /// Look `s` up in one part of the catalogue.
    fn lookup_4(s: &str) -> (r: Option<Kind>)
        ensures
            match r {
                Some(k) => (kind_name(k) == s@ && in_catalog_4(s@) && !(k matches Kind::null)),
                None => !in_catalog_4(s@),
            },
    {
        if str_eq(s, "FloatingLiteral") {
            Some(Kind::FloatingLiteral)
        } else if str_eq(s, "ForStmt") {
            Some(Kind::ForStmt)
        } else if str_eq(s, "FormatArgAttr") {
            Some(Kind::FormatArgAttr)
        } else if str_eq(s, "FormatAttr") {
            Some(Kind::FormatAttr)
        } else if str_eq(s, "FriendDecl") {
            Some(Kind::FriendDecl)
        } else if str_eq(s, "FullComment") {
            Some(Kind::FullComment)
        } else if str_eq(s, "FunctionDecl") {
            Some(Kind::FunctionDecl)
        } else if str_eq(s, "FunctionProtoType") {
            Some(Kind::FunctionProtoType)
        } else if str_eq(s, "FunctionTemplateDecl") {
            Some(Kind::FunctionTemplateDecl)
        } else if str_eq(s, "GCCAsmStmt") {
            Some(Kind::GCCAsmStmt)
        } else if str_eq(s, "GNUInlineAttr") {
            Some(Kind::GNUInlineAttr)
        } else if str_eq(s, "GNUNullExpr") {
            Some(Kind::GNUNullExpr)
        } else if str_eq(s, "GotoStmt") {
            Some(Kind::GotoStmt)
        } else if str_eq(s, "HTMLEndTagComment") {
            Some(Kind::HTMLEndTagComment)
        } else if str_eq(s, "HTMLStartTagComment") {
            Some(Kind::HTMLStartTagComment)
        } else if str_eq(s, "IfStmt") {
            Some(Kind::IfStmt)
        } else if str_eq(s, "ImplicitCastExpr") {
            Some(Kind::ImplicitCastExpr)
        } else if str_eq(s, "ImplicitValueInitExpr") {
            Some(Kind::ImplicitValueInitExpr)
        } else if str_eq(s, "IncompleteArrayType") {
            Some(Kind::IncompleteArrayType)
        } else if str_eq(s, "IndirectFieldDecl") {
            Some(Kind::IndirectFieldDecl)
        } else if str_eq(s, "InitListExpr") {
            Some(Kind::InitListExpr)
        } else if str_eq(s, "InjectedClassNameType") {
            Some(Kind::InjectedClassNameType)
        } else if str_eq(s, "InlineCommandComment") {
            Some(Kind::InlineCommandComment)
        } else if str_eq(s, "IntegerLiteral") {
            Some(Kind::IntegerLiteral)
        } else if str_eq(s, "InternalLinkageAttr") {
            Some(Kind::InternalLinkageAttr)
        } else if str_eq(s, "LValueReferenceType") {
            Some(Kind::LValueReferenceType)
        } else if str_eq(s, "LabelStmt") {
            Some(Kind::LabelStmt)
        } else if str_eq(s, "LambdaExpr") {
            Some(Kind::LambdaExpr)
        } else {
            None
        }
    }

    /// Look `s` up in one part of the catalogue.
    fn lookup_5(s: &str) -> (r: Option<Kind>)
        ensures
            match r {
                Some(k) => (kind_name(k) == s@ && in_catalog_5(s@) && !(k matches Kind::null)),
                None => !in_catalog_5(s@),
            },
    {
        if str_eq(s, "LikelyAttr") {
            Some(Kind::LikelyAttr)
        } else if str_eq(s, "LinkageSpecDecl") {
            Some(Kind::LinkageSpecDecl)
        } else if str_eq(s, "MaterializeTemporaryExpr") {
            Some(Kind::MaterializeTemporaryExpr)
        } else if str_eq(s, "MaxFieldAlignmentAttr") {
            Some(Kind::MaxFieldAlignmentAttr)
        } else if str_eq(s, "MayAliasAttr") {
            Some(Kind::MayAliasAttr)
        } else if str_eq(s, "MemberExpr") {
            Some(Kind::MemberExpr)
        } else if str_eq(s, "MemberPointerType") {
            Some(Kind::MemberPointerType)
        } else if str_eq(s, "MinVectorWidthAttr") {
            Some(Kind::MinVectorWidthAttr)
        } else if str_eq(s, "ModeAttr") {
            Some(Kind::ModeAttr)
        } else if str_eq(s, "NamespaceAliasDecl") {
            Some(Kind::NamespaceAliasDecl)
        } else if str_eq(s, "NamespaceDecl") {
            Some(Kind::NamespaceDecl)
        } else if str_eq(s, "NestedRequirement") {
            Some(Kind::NestedRequirement)
        } else if str_eq(s, "NoAliasAttr") {
            Some(Kind::NoAliasAttr)
        } else if str_eq(s, "NoDebugAttr") {
            Some(Kind::NoDebugAttr)
        } else if str_eq(s, "NoEscapeAttr") {
            Some(Kind::NoEscapeAttr)
        } else if str_eq(s, "NoInlineAttr") {
            Some(Kind::NoInlineAttr)
        } else if str_eq(s, "NoSanitizeAttr") {
            Some(Kind::NoSanitizeAttr)
        } else if str_eq(s, "NoThrowAttr") {
            Some(Kind::NoThrowAttr)
        } else if str_eq(s, "NoUniqueAddressAttr") {
            Some(Kind::NoUniqueAddressAttr)
        } else if str_eq(s, "NonNullAttr") {
            Some(Kind::NonNullAttr)
        } else if str_eq(s, "NonTypeTemplateParmDecl") {
            Some(Kind::NonTypeTemplateParmDecl)
        } else if str_eq(s, "NullStmt") {
            Some(Kind::NullStmt)
        } else if str_eq(s, "OffsetOfExpr") {
            Some(Kind::OffsetOfExpr)
        } else if str_eq(s, "OpaqueValueExpr") {
            Some(Kind::OpaqueValueExpr)
        } else if str_eq(s, "OverrideAttr") {
            Some(Kind::OverrideAttr)
        } else if str_eq(s, "OwnerAttr") {
            Some(Kind::OwnerAttr)
        } else if str_eq(s, "PackExpansionExpr") {
            Some(Kind::PackExpansionExpr)
        } else if str_eq(s, "PackExpansionType") {
            Some(Kind::PackExpansionType)
        } else {
            None
        }
    }

    /// Look `s` up in one part of the catalogue.
    fn lookup_6(s: &str) -> (r: Option<Kind>)
        ensures
            match r {
                Some(k) => (kind_name(k) == s@ && in_catalog_6(s@) && !(k matches Kind::null)),
                None => !in_catalog_6(s@),
            },
    {
        if str_eq(s, "PackedAttr") {
            Some(Kind::PackedAttr)
        } else if str_eq(s, "ParagraphComment") {
            Some(Kind::ParagraphComment)
        } else if str_eq(s, "ParamCommandComment") {
            Some(Kind::ParamCommandComment)
        } else if str_eq(s, "ParenExpr") {
            Some(Kind::ParenExpr)
        } else if str_eq(s, "ParenListExpr") {
            Some(Kind::ParenListExpr)
        } else if str_eq(s, "ParenType") {
            Some(Kind::ParenType)
        } else if str_eq(s, "ParmVarDecl") {
            Some(Kind::ParmVarDecl)
        } else if str_eq(s, "PointerAttr") {
            Some(Kind::PointerAttr)
        } else if str_eq(s, "PointerType") {
            Some(Kind::PointerType)
        } else if str_eq(s, "PredefinedExpr") {
            Some(Kind::PredefinedExpr)
        } else if str_eq(s, "PreferredNameAttr") {
            Some(Kind::PreferredNameAttr)
        } else if str_eq(s, "PureAttr") {
            Some(Kind::PureAttr)
        } else if str_eq(s, "QualType") {
            Some(Kind::QualType)
        } else if str_eq(s, "RValueReferenceType") {
            Some(Kind::RValueReferenceType)
        } else if str_eq(s, "RecordDecl") {
            Some(Kind::RecordDecl)
        } else if str_eq(s, "RecordType") {
            Some(Kind::RecordType)
        } else if str_eq(s, "RecoveryExpr") {
            Some(Kind::RecoveryExpr)
        } else if str_eq(s, "RequiresExpr") {
            Some(Kind::RequiresExpr)
        } else if str_eq(s, "RestrictAttr") {
            Some(Kind::RestrictAttr)
        } else if str_eq(s, "ReturnStmt") {
            Some(Kind::ReturnStmt)
        } else if str_eq(s, "ReturnsNonNullAttr") {
            Some(Kind::ReturnsNonNullAttr)
        } else if str_eq(s, "ReturnsTwiceAttr") {
            Some(Kind::ReturnsTwiceAttr)
        } else if str_eq(s, "ShuffleVectorExpr") {
            Some(Kind::ShuffleVectorExpr)
        } else if str_eq(s, "SimpleRequirement") {
            Some(Kind::SimpleRequirement)
        } else if str_eq(s, "SizeOfPackExpr") {
            Some(Kind::SizeOfPackExpr)
        } else if str_eq(s, "StaticAssertDecl") {
            Some(Kind::StaticAssertDecl)
        } else if str_eq(s, "StringLiteral") {
            Some(Kind::StringLiteral)
        } else if str_eq(s, "SubstNonTypeTemplateParmExpr") {
            Some(Kind::SubstNonTypeTemplateParmExpr)
        } else {
            None
        }
    }

    /// Look `s` up in one part of the catalogue.
    fn lookup_7(s: &str) -> (r: Option<Kind>)
        ensures
            match r {
                Some(k) => (kind_name(k) == s@ && in_catalog_7(s@) && !(k matches Kind::null)),
                None => !in_catalog_7(s@),
            },
    {
        if str_eq(s, "SubstTemplateTypeParmType") {
            Some(Kind::SubstTemplateTypeParmType)
        } else if str_eq(s, "SwiftAttrAttr") {
            Some(Kind::SwiftAttrAttr)
        } else if str_eq(s, "SwitchStmt") {
            Some(Kind::SwitchStmt)
        } else if str_eq(s, "TargetAttr") {
            Some(Kind::TargetAttr)
        } else if str_eq(s, "TemplateArgument") {
            Some(Kind::TemplateArgument)
        } else if str_eq(s, "TemplateSpecializationType") {
            Some(Kind::TemplateSpecializationType)
        } else if str_eq(s, "TemplateTemplateParmDecl") {
            Some(Kind::TemplateTemplateParmDecl)
        } else if str_eq(s, "TemplateTypeParmDecl") {
            Some(Kind::TemplateTypeParmDecl)
        } else if str_eq(s, "TemplateTypeParmType") {
            Some(Kind::TemplateTypeParmType)
        } else if str_eq(s, "TextComment") {
            Some(Kind::TextComment)
        } else if str_eq(s, "TranslationUnitDecl") {
            Some(Kind::TranslationUnitDecl)
        } else if str_eq(s, "TypeAliasDecl") {
            Some(Kind::TypeAliasDecl)
        } else if str_eq(s, "TypeAliasTemplateDecl") {
            Some(Kind::TypeAliasTemplateDecl)
        } else if str_eq(s, "TypeOfExprType") {
            Some(Kind::TypeOfExprType)
        } else if str_eq(s, "TypeRequirement") {
            Some(Kind::TypeRequirement)
        } else if str_eq(s, "TypeTraitExpr") {
            Some(Kind::TypeTraitExpr)
        } else if str_eq(s, "TypeVisibilityAttr") {
            Some(Kind::TypeVisibilityAttr)
        } else if str_eq(s, "TypedefDecl") {
            Some(Kind::TypedefDecl)
        } else if str_eq(s, "TypedefType") {
            Some(Kind::TypedefType)
        } else if str_eq(s, "UnaryExprOrTypeTraitExpr") {
            Some(Kind::UnaryExprOrTypeTraitExpr)
        } else if str_eq(s, "UnaryOperator") {
            Some(Kind::UnaryOperator)
        } else if str_eq(s, "UnaryTransformType") {
            Some(Kind::UnaryTransformType)
        } else if str_eq(s, "UnavailableAttr") {
            Some(Kind::UnavailableAttr)
        } else if str_eq(s, "UnlikelyAttr") {
            Some(Kind::UnlikelyAttr)
        } else if str_eq(s, "UnresolvedLookupExpr") {
            Some(Kind::UnresolvedLookupExpr)
        } else if str_eq(s, "UnresolvedMemberExpr") {
            Some(Kind::UnresolvedMemberExpr)
        } else if str_eq(s, "UnresolvedUsingIfExistsDecl") {
            Some(Kind::UnresolvedUsingIfExistsDecl)
        } else if str_eq(s, "UnresolvedUsingTypenameDecl") {
            Some(Kind::UnresolvedUsingTypenameDecl)
        } else {
            None
        }
    }

    /// Look `s` up in one part of the catalogue.
    fn lookup_8(s: &str) -> (r: Option<Kind>)
        ensures
            match r {
                Some(k) => (kind_name(k) == s@ && in_catalog_8(s@) && !(k matches Kind::null)),
                None => !in_catalog_8(s@),
            },
    {
        if str_eq(s, "UnresolvedUsingValueDecl") {
            Some(Kind::UnresolvedUsingValueDecl)
        } else if str_eq(s, "UnusedAttr") {
            Some(Kind::UnusedAttr)
        } else if str_eq(s, "UserDefinedLiteral") {
            Some(Kind::UserDefinedLiteral)
        } else if str_eq(s, "UsingDecl") {
            Some(Kind::UsingDecl)
        } else if str_eq(s, "UsingDirectiveDecl") {
            Some(Kind::UsingDirectiveDecl)
        } else if str_eq(s, "UsingEnumDecl") {
            Some(Kind::UsingEnumDecl)
        } else if str_eq(s, "UsingIfExistsAttr") {
            Some(Kind::UsingIfExistsAttr)
        } else if str_eq(s, "UsingShadowDecl") {
            Some(Kind::UsingShadowDecl)
        } else if str_eq(s, "UsingType") {
            Some(Kind::UsingType)
        } else if str_eq(s, "VTablePointerAuthenticationAttr") {
            Some(Kind::VTablePointerAuthenticationAttr)
        } else if str_eq(s, "VarDecl") {
            Some(Kind::VarDecl)
        } else if str_eq(s, "VarTemplateDecl") {
            Some(Kind::VarTemplateDecl)
        } else if str_eq(s, "VarTemplatePartialSpecializationDecl") {
            Some(Kind::VarTemplatePartialSpecializationDecl)
        } else if str_eq(s, "VarTemplateSpecializationDecl") {
            Some(Kind::VarTemplateSpecializationDecl)
        } else if str_eq(s, "VectorType") {
            Some(Kind::VectorType)
        } else if str_eq(s, "VerbatimLineComment") {
            Some(Kind::VerbatimLineComment)
        } else if str_eq(s, "VisibilityAttr") {
            Some(Kind::VisibilityAttr)
        } else if str_eq(s, "WarnUnusedResultAttr") {
            Some(Kind::WarnUnusedResultAttr)
        } else if str_eq(s, "WeakAttr") {
            Some(Kind::WeakAttr)
        } else if str_eq(s, "WeakImportAttr") {
            Some(Kind::WeakImportAttr)
        } else if str_eq(s, "WeakRefAttr") {
            Some(Kind::WeakRefAttr)
        } else if str_eq(s, "WhileStmt") {
            Some(Kind::WhileStmt)
        } else {
            None
        }
    }

}

/// The error of a failed catalogue lookup.
#[derive(Clone, Copy, PartialEq, Eq, Structural, Debug)]
pub struct ParseKindError {}

/// A resolved kind tag: a catalogue entry, or an unrecognized name carried
/// verbatim.
pub enum AnyKind {
    Kind(Kind),
    Owned(String),
}

impl View for AnyKind {
    type V = Seq<char>;

    /// A tag's abstraction is just its string form.
    open spec fn view(&self) -> Seq<char> {
        match self {
            AnyKind::Kind(k) => kind_name(*k),
            AnyKind::Owned(s) => s@,
        }
    }
}

impl AnyKind {
    /// The sentinel tag of a node without a `kind` field.
    pub fn null() -> (r: AnyKind)
        ensures
            r == AnyKind::Kind(Kind::null),
    {
        AnyKind::Kind(Kind::null)
    }

    /// The string form of the tag, whichever case it is.
    pub fn as_str(&self) -> (r: &str)
        ensures
            r@ == self@,
    {
        match self {
            AnyKind::Kind(k) => k.as_str(),
            AnyKind::Owned(s) => s.as_str(),
        }
    }

    /// Resolve a `"kind"` string: total, with no parse failure at this
    /// layer.  A catalogue name resolves to its catalogue entry; any other
    /// string is carried verbatim; either way the tag's string form is the
    /// input, and the null sentinel never comes out of resolution.
    pub fn resolve(s: &str) -> (r: AnyKind)
        ensures
            r@ == s@,
            !(r == AnyKind::Kind(Kind::null)),
            in_catalog(s@) ==> (r matches AnyKind::Kind(k) && kind_name(k) == s@),
            !in_catalog(s@) ==> (r matches AnyKind::Owned(o) && o@ == s@),
    {
        match Kind::from_str(s) {
            Ok(k) => AnyKind::Kind(k),
            Err(_) => AnyKind::Owned(String::from_str(s)),
        }
    }
}

} // verus!

//! The grammar productions that declare nothing: each reduces its children
//! by the generic rule, which keeps what they hold for an enclosing
//! declaration and passes errors on.

use vstd::prelude::*;
use crate::node::{Node, flatten, is_flatten_of};
use crate::smart_constructors::DirectDeclSmartConstructors;

verus! {

impl DirectDeclSmartConstructors {
    pub fn make_end_of_file(&mut self, arg0: Node) -> (r: Node)
        ensures
            is_flatten_of(seq![arg0], r),
            final(self)@ == old(self)@,
    {
        let children = vec![arg0];
        assert(children@ =~= seq![arg0]);
        flatten(children)
    }

    pub fn make_script(&mut self, arg0: Node) -> (r: Node)
        ensures
            is_flatten_of(seq![arg0], r),
            final(self)@ == old(self)@,
    {
        let children = vec![arg0];
        assert(children@ =~= seq![arg0]);
        flatten(children)
    }

    pub fn make_literal_expression(&mut self, arg0: Node) -> (r: Node)
        ensures
            is_flatten_of(seq![arg0], r),
            final(self)@ == old(self)@,
    {
        let children = vec![arg0];
        assert(children@ =~= seq![arg0]);
        flatten(children)
    }

    pub fn make_prefixed_string_expression(&mut self, arg0: Node, arg1: Node) -> (r: Node)
        ensures
            is_flatten_of(seq![arg0, arg1], r),
            final(self)@ == old(self)@,
    {
        let children = vec![arg0, arg1];
        assert(children@ =~= seq![arg0, arg1]);
        flatten(children)
    }

    pub fn make_variable_expression(&mut self, arg0: Node) -> (r: Node)
        ensures
            is_flatten_of(seq![arg0], r),
            final(self)@ == old(self)@,
    {
        let children = vec![arg0];
        assert(children@ =~= seq![arg0]);
        flatten(children)
    }

    pub fn make_pipe_variable_expression(&mut self, arg0: Node) -> (r: Node)
        ensures
            is_flatten_of(seq![arg0], r),
            final(self)@ == old(self)@,
    {
        let children = vec![arg0];
        assert(children@ =~= seq![arg0]);
        flatten(children)
    }

    pub fn make_file_attribute_specification(
        &mut self,
        arg0: Node,
        arg1: Node,
        arg2: Node,
        arg3: Node,
        arg4: Node,
    ) -> (r: Node)
        ensures
            is_flatten_of(seq![arg0, arg1, arg2, arg3, arg4], r),
            final(self)@ == old(self)@,
    {
        let children = vec![arg0, arg1, arg2, arg3, arg4];
        assert(children@ =~= seq![arg0, arg1, arg2, arg3, arg4]);
        flatten(children)
    }

    pub fn make_enum_declaration(
        &mut self,
        arg0: Node,
        arg1: Node,
        arg2: Node,
        arg3: Node,
        arg4: Node,
        arg5: Node,
        arg6: Node,
        arg7: Node,
        arg8: Node,
    ) -> (r: Node)
        ensures
            is_flatten_of(seq![arg0, arg1, arg2, arg3, arg4, arg5, arg6, arg7, arg8], r),
            final(self)@ == old(self)@,
    {
        let children = vec![arg0, arg1, arg2, arg3, arg4, arg5, arg6, arg7, arg8];
        assert(children@ =~= seq![arg0, arg1, arg2, arg3, arg4, arg5, arg6, arg7, arg8]);
        flatten(children)
    }

    pub fn make_enumerator(&mut self, arg0: Node, arg1: Node, arg2: Node, arg3: Node) -> (r: Node)
        ensures
            is_flatten_of(seq![arg0, arg1, arg2, arg3], r),
            final(self)@ == old(self)@,
    {
        let children = vec![arg0, arg1, arg2, arg3];
        assert(children@ =~= seq![arg0, arg1, arg2, arg3]);
        flatten(children)
    }

    pub fn make_record_declaration(
        &mut self,
        arg0: Node,
        arg1: Node,
        arg2: Node,
        arg3: Node,
        arg4: Node,
        arg5: Node,
        arg6: Node,
        arg7: Node,
        arg8: Node,
    ) -> (r: Node)
        ensures
            is_flatten_of(seq![arg0, arg1, arg2, arg3, arg4, arg5, arg6, arg7, arg8], r),
            final(self)@ == old(self)@,
    {
        let children = vec![arg0, arg1, arg2, arg3, arg4, arg5, arg6, arg7, arg8];
        assert(children@ =~= seq![arg0, arg1, arg2, arg3, arg4, arg5, arg6, arg7, arg8]);
        flatten(children)
    }

    pub fn make_record_field(
        &mut self,
        arg0: Node,
        arg1: Node,
        arg2: Node,
        arg3: Node,
        arg4: Node,
    ) -> (r: Node)
        ensures
            is_flatten_of(seq![arg0, arg1, arg2, arg3, arg4], r),
            final(self)@ == old(self)@,
    {
        let children = vec![arg0, arg1, arg2, arg3, arg4];
        assert(children@ =~= seq![arg0, arg1, arg2, arg3, arg4]);
        flatten(children)
    }

    pub fn make_property_declaration(
        &mut self,
        arg0: Node,
        arg1: Node,
        arg2: Node,
        arg3: Node,
        arg4: Node,
    ) -> (r: Node)
        ensures
            is_flatten_of(seq![arg0, arg1, arg2, arg3, arg4], r),
            final(self)@ == old(self)@,
    {
        let children = vec![arg0, arg1, arg2, arg3, arg4];
        assert(children@ =~= seq![arg0, arg1, arg2, arg3, arg4]);
        flatten(children)
    }

    pub fn make_property_declarator(&mut self, arg0: Node, arg1: Node) -> (r: Node)
        ensures
            is_flatten_of(seq![arg0, arg1], r),
            final(self)@ == old(self)@,
    {
        let children = vec![arg0, arg1];
        assert(children@ =~= seq![arg0, arg1]);
        flatten(children)
    }

    pub fn make_namespace_body(&mut self, arg0: Node, arg1: Node, arg2: Node) -> (r: Node)
        ensures
            is_flatten_of(seq![arg0, arg1, arg2], r),
            final(self)@ == old(self)@,
    {
        let children = vec![arg0, arg1, arg2];
        assert(children@ =~= seq![arg0, arg1, arg2]);
        flatten(children)
    }

    pub fn make_namespace_empty_body(&mut self, arg0: Node) -> (r: Node)
        ensures
            is_flatten_of(seq![arg0], r),
            final(self)@ == old(self)@,
    {
        let children = vec![arg0];
        assert(children@ =~= seq![arg0]);
        flatten(children)
    }

    pub fn make_namespace_use_declaration(
        &mut self,
        arg0: Node,
        arg1: Node,
        arg2: Node,
        arg3: Node,
    ) -> (r: Node)
        ensures
            is_flatten_of(seq![arg0, arg1, arg2, arg3], r),
            final(self)@ == old(self)@,
    {
        let children = vec![arg0, arg1, arg2, arg3];
        assert(children@ =~= seq![arg0, arg1, arg2, arg3]);
        flatten(children)
    }

    pub fn make_namespace_group_use_declaration(
        &mut self,
        arg0: Node,
        arg1: Node,
        arg2: Node,
        arg3: Node,
        arg4: Node,
        arg5: Node,
        arg6: Node,
    ) -> (r: Node)
        ensures
            is_flatten_of(seq![arg0, arg1, arg2, arg3, arg4, arg5, arg6], r),
            final(self)@ == old(self)@,
    {
        let children = vec![arg0, arg1, arg2, arg3, arg4, arg5, arg6];
        assert(children@ =~= seq![arg0, arg1, arg2, arg3, arg4, arg5, arg6]);
        flatten(children)
    }

    pub fn make_namespace_use_clause(
        &mut self,
        arg0: Node,
        arg1: Node,
        arg2: Node,
        arg3: Node,
    ) -> (r: Node)
        ensures
            is_flatten_of(seq![arg0, arg1, arg2, arg3], r),
            final(self)@ == old(self)@,
    {
        let children = vec![arg0, arg1, arg2, arg3];
        assert(children@ =~= seq![arg0, arg1, arg2, arg3]);
        flatten(children)
    }

    pub fn make_where_clause(&mut self, arg0: Node, arg1: Node) -> (r: Node)
        ensures
            is_flatten_of(seq![arg0, arg1], r),
            final(self)@ == old(self)@,
    {
        let children = vec![arg0, arg1];
        assert(children@ =~= seq![arg0, arg1]);
        flatten(children)
    }

    pub fn make_where_constraint(&mut self, arg0: Node, arg1: Node, arg2: Node) -> (r: Node)
        ensures
            is_flatten_of(seq![arg0, arg1, arg2], r),
            final(self)@ == old(self)@,
    {
        let children = vec![arg0, arg1, arg2];
        assert(children@ =~= seq![arg0, arg1, arg2]);
        flatten(children)
    }

    pub fn make_methodish_declaration(
        &mut self,
        arg0: Node,
        arg1: Node,
        arg2: Node,
        arg3: Node,
    ) -> (r: Node)
        ensures
            is_flatten_of(seq![arg0, arg1, arg2, arg3], r),
            final(self)@ == old(self)@,
    {
        let children = vec![arg0, arg1, arg2, arg3];
        assert(children@ =~= seq![arg0, arg1, arg2, arg3]);
        flatten(children)
    }

    pub fn make_methodish_trait_resolution(
        &mut self,
        arg0: Node,
        arg1: Node,
        arg2: Node,
        arg3: Node,
        arg4: Node,
    ) -> (r: Node)
        ensures
            is_flatten_of(seq![arg0, arg1, arg2, arg3, arg4], r),
            final(self)@ == old(self)@,
    {
        let children = vec![arg0, arg1, arg2, arg3, arg4];
        assert(children@ =~= seq![arg0, arg1, arg2, arg3, arg4]);
        flatten(children)
    }

    pub fn make_classish_body(&mut self, arg0: Node, arg1: Node, arg2: Node) -> (r: Node)
        ensures
            is_flatten_of(seq![arg0, arg1, arg2], r),
            final(self)@ == old(self)@,
    {
        let children = vec![arg0, arg1, arg2];
        assert(children@ =~= seq![arg0, arg1, arg2]);
        flatten(children)
    }

    pub fn make_trait_use_precedence_item(
        &mut self,
        arg0: Node,
        arg1: Node,
        arg2: Node,
    ) -> (r: Node)
        ensures
            is_flatten_of(seq![arg0, arg1, arg2], r),
            final(self)@ == old(self)@,
    {
        let children = vec![arg0, arg1, arg2];
        assert(children@ =~= seq![arg0, arg1, arg2]);
        flatten(children)
    }

    pub fn make_trait_use_alias_item(
        &mut self,
        arg0: Node,
        arg1: Node,
        arg2: Node,
        arg3: Node,
    ) -> (r: Node)
        ensures
            is_flatten_of(seq![arg0, arg1, arg2, arg3], r),
            final(self)@ == old(self)@,
    {
        let children = vec![arg0, arg1, arg2, arg3];
        assert(children@ =~= seq![arg0, arg1, arg2, arg3]);
        flatten(children)
    }

    pub fn make_trait_use_conflict_resolution(
        &mut self,
        arg0: Node,
        arg1: Node,
        arg2: Node,
        arg3: Node,
        arg4: Node,
    ) -> (r: Node)
        ensures
            is_flatten_of(seq![arg0, arg1, arg2, arg3, arg4], r),
            final(self)@ == old(self)@,
    {
        let children = vec![arg0, arg1, arg2, arg3, arg4];
        assert(children@ =~= seq![arg0, arg1, arg2, arg3, arg4]);
        flatten(children)
    }

    pub fn make_trait_use(&mut self, arg0: Node, arg1: Node, arg2: Node) -> (r: Node)
        ensures
            is_flatten_of(seq![arg0, arg1, arg2], r),
            final(self)@ == old(self)@,
    {
        let children = vec![arg0, arg1, arg2];
        assert(children@ =~= seq![arg0, arg1, arg2]);
        flatten(children)
    }

    pub fn make_require_clause(
        &mut self,
        arg0: Node,
        arg1: Node,
        arg2: Node,
        arg3: Node,
    ) -> (r: Node)
        ensures
            is_flatten_of(seq![arg0, arg1, arg2, arg3], r),
            final(self)@ == old(self)@,
    {
        let children = vec![arg0, arg1, arg2, arg3];
        assert(children@ =~= seq![arg0, arg1, arg2, arg3]);
        flatten(children)
    }

    pub fn make_type_const_declaration(
        &mut self,
        arg0: Node,
        arg1: Node,
        arg2: Node,
        arg3: Node,
        arg4: Node,
        arg5: Node,
        arg6: Node,
        arg7: Node,
        arg8: Node,
        arg9: Node,
    ) -> (r: Node)
        ensures
            is_flatten_of(seq![arg0, arg1, arg2, arg3, arg4, arg5, arg6, arg7, arg8, arg9], r),
            final(self)@ == old(self)@,
    {
        let children = vec![arg0, arg1, arg2, arg3, arg4, arg5, arg6, arg7, arg8, arg9];
        assert(children@ =~= seq![arg0, arg1, arg2, arg3, arg4, arg5, arg6, arg7, arg8, arg9]);
        flatten(children)
    }

    pub fn make_decorated_expression(&mut self, arg0: Node, arg1: Node) -> (r: Node)
        ensures
            is_flatten_of(seq![arg0, arg1], r),
            final(self)@ == old(self)@,
    {
        let children = vec![arg0, arg1];
        assert(children@ =~= seq![arg0, arg1]);
        flatten(children)
    }

    pub fn make_variadic_parameter(&mut self, arg0: Node, arg1: Node, arg2: Node) -> (r: Node)
        ensures
            is_flatten_of(seq![arg0, arg1, arg2], r),
            final(self)@ == old(self)@,
    {
        let children = vec![arg0, arg1, arg2];
        assert(children@ =~= seq![arg0, arg1, arg2]);
        flatten(children)
    }

    pub fn make_attribute_specification(&mut self, arg0: Node, arg1: Node, arg2: Node) -> (r: Node)
        ensures
            is_flatten_of(seq![arg0, arg1, arg2], r),
            final(self)@ == old(self)@,
    {
        let children = vec![arg0, arg1, arg2];
        assert(children@ =~= seq![arg0, arg1, arg2]);
        flatten(children)
    }

    pub fn make_inclusion_expression(&mut self, arg0: Node, arg1: Node) -> (r: Node)
        ensures
            is_flatten_of(seq![arg0, arg1], r),
            final(self)@ == old(self)@,
    {
        let children = vec![arg0, arg1];
        assert(children@ =~= seq![arg0, arg1]);
        flatten(children)
    }

    pub fn make_inclusion_directive(&mut self, arg0: Node, arg1: Node) -> (r: Node)
        ensures
            is_flatten_of(seq![arg0, arg1], r),
            final(self)@ == old(self)@,
    {
        let children = vec![arg0, arg1];
        assert(children@ =~= seq![arg0, arg1]);
        flatten(children)
    }

    pub fn make_compound_statement(&mut self, arg0: Node, arg1: Node, arg2: Node) -> (r: Node)
        ensures
            is_flatten_of(seq![arg0, arg1, arg2], r),
            final(self)@ == old(self)@,
    {
        let children = vec![arg0, arg1, arg2];
        assert(children@ =~= seq![arg0, arg1, arg2]);
        flatten(children)
    }

    pub fn make_expression_statement(&mut self, arg0: Node, arg1: Node) -> (r: Node)
        ensures
            is_flatten_of(seq![arg0, arg1], r),
            final(self)@ == old(self)@,
    {
        let children = vec![arg0, arg1];
        assert(children@ =~= seq![arg0, arg1]);
        flatten(children)
    }

    pub fn make_markup_section(
        &mut self,
        arg0: Node,
        arg1: Node,
        arg2: Node,
        arg3: Node,
    ) -> (r: Node)
        ensures
            is_flatten_of(seq![arg0, arg1, arg2, arg3], r),
            final(self)@ == old(self)@,
    {
        let children = vec![arg0, arg1, arg2, arg3];
        assert(children@ =~= seq![arg0, arg1, arg2, arg3]);
        flatten(children)
    }

    pub fn make_markup_suffix(&mut self, arg0: Node, arg1: Node) -> (r: Node)
        ensures
            is_flatten_of(seq![arg0, arg1], r),
            final(self)@ == old(self)@,
    {
        let children = vec![arg0, arg1];
        assert(children@ =~= seq![arg0, arg1]);
        flatten(children)
    }

    pub fn make_unset_statement(
        &mut self,
        arg0: Node,
        arg1: Node,
        arg2: Node,
        arg3: Node,
        arg4: Node,
    ) -> (r: Node)
        ensures
            is_flatten_of(seq![arg0, arg1, arg2, arg3, arg4], r),
            final(self)@ == old(self)@,
    {
        let children = vec![arg0, arg1, arg2, arg3, arg4];
        assert(children@ =~= seq![arg0, arg1, arg2, arg3, arg4]);
        flatten(children)
    }

    pub fn make_let_statement(
        &mut self,
        arg0: Node,
        arg1: Node,
        arg2: Node,
        arg3: Node,
        arg4: Node,
        arg5: Node,
    ) -> (r: Node)
        ensures
            is_flatten_of(seq![arg0, arg1, arg2, arg3, arg4, arg5], r),
            final(self)@ == old(self)@,
    {
        let children = vec![arg0, arg1, arg2, arg3, arg4, arg5];
        assert(children@ =~= seq![arg0, arg1, arg2, arg3, arg4, arg5]);
        flatten(children)
    }

    pub fn make_using_statement_block_scoped(
        &mut self,
        arg0: Node,
        arg1: Node,
        arg2: Node,
        arg3: Node,
        arg4: Node,
        arg5: Node,
    ) -> (r: Node)
        ensures
            is_flatten_of(seq![arg0, arg1, arg2, arg3, arg4, arg5], r),
            final(self)@ == old(self)@,
    {
        let children = vec![arg0, arg1, arg2, arg3, arg4, arg5];
        assert(children@ =~= seq![arg0, arg1, arg2, arg3, arg4, arg5]);
        flatten(children)
    }

    pub fn make_using_statement_function_scoped(
        &mut self,
        arg0: Node,
        arg1: Node,
        arg2: Node,
        arg3: Node,
    ) -> (r: Node)
        ensures
            is_flatten_of(seq![arg0, arg1, arg2, arg3], r),
            final(self)@ == old(self)@,
    {
        let children = vec![arg0, arg1, arg2, arg3];
        assert(children@ =~= seq![arg0, arg1, arg2, arg3]);
        flatten(children)
    }

    pub fn make_while_statement(
        &mut self,
        arg0: Node,
        arg1: Node,
        arg2: Node,
        arg3: Node,
        arg4: Node,
    ) -> (r: Node)
        ensures
            is_flatten_of(seq![arg0, arg1, arg2, arg3, arg4], r),
            final(self)@ == old(self)@,
    {
        let children = vec![arg0, arg1, arg2, arg3, arg4];
        assert(children@ =~= seq![arg0, arg1, arg2, arg3, arg4]);
        flatten(children)
    }

    pub fn make_if_statement(
        &mut self,
        arg0: Node,
        arg1: Node,
        arg2: Node,
        arg3: Node,
        arg4: Node,
        arg5: Node,
        arg6: Node,
    ) -> (r: Node)
        ensures
            is_flatten_of(seq![arg0, arg1, arg2, arg3, arg4, arg5, arg6], r),
            final(self)@ == old(self)@,
    {
        let children = vec![arg0, arg1, arg2, arg3, arg4, arg5, arg6];
        assert(children@ =~= seq![arg0, arg1, arg2, arg3, arg4, arg5, arg6]);
        flatten(children)
    }

    pub fn make_elseif_clause(
        &mut self,
        arg0: Node,
        arg1: Node,
        arg2: Node,
        arg3: Node,
        arg4: Node,
    ) -> (r: Node)
        ensures
            is_flatten_of(seq![arg0, arg1, arg2, arg3, arg4], r),
            final(self)@ == old(self)@,
    {
        let children = vec![arg0, arg1, arg2, arg3, arg4];
        assert(children@ =~= seq![arg0, arg1, arg2, arg3, arg4]);
        flatten(children)
    }

    pub fn make_else_clause(&mut self, arg0: Node, arg1: Node) -> (r: Node)
        ensures
            is_flatten_of(seq![arg0, arg1], r),
            final(self)@ == old(self)@,
    {
        let children = vec![arg0, arg1];
        assert(children@ =~= seq![arg0, arg1]);
        flatten(children)
    }

    pub fn make_try_statement(
        &mut self,
        arg0: Node,
        arg1: Node,
        arg2: Node,
        arg3: Node,
    ) -> (r: Node)
        ensures
            is_flatten_of(seq![arg0, arg1, arg2, arg3], r),
            final(self)@ == old(self)@,
    {
        let children = vec![arg0, arg1, arg2, arg3];
        assert(children@ =~= seq![arg0, arg1, arg2, arg3]);
        flatten(children)
    }

    pub fn make_catch_clause(
        &mut self,
        arg0: Node,
        arg1: Node,
        arg2: Node,
        arg3: Node,
        arg4: Node,
        arg5: Node,
    ) -> (r: Node)
        ensures
            is_flatten_of(seq![arg0, arg1, arg2, arg3, arg4, arg5], r),
            final(self)@ == old(self)@,
    {
        let children = vec![arg0, arg1, arg2, arg3, arg4, arg5];
        assert(children@ =~= seq![arg0, arg1, arg2, arg3, arg4, arg5]);
        flatten(children)
    }

    pub fn make_finally_clause(&mut self, arg0: Node, arg1: Node) -> (r: Node)
        ensures
            is_flatten_of(seq![arg0, arg1], r),
            final(self)@ == old(self)@,
    {
        let children = vec![arg0, arg1];
        assert(children@ =~= seq![arg0, arg1]);
        flatten(children)
    }

    pub fn make_do_statement(
        &mut self,
        arg0: Node,
        arg1: Node,
        arg2: Node,
        arg3: Node,
        arg4: Node,
        arg5: Node,
        arg6: Node,
    ) -> (r: Node)
        ensures
            is_flatten_of(seq![arg0, arg1, arg2, arg3, arg4, arg5, arg6], r),
            final(self)@ == old(self)@,
    {
        let children = vec![arg0, arg1, arg2, arg3, arg4, arg5, arg6];
        assert(children@ =~= seq![arg0, arg1, arg2, arg3, arg4, arg5, arg6]);
        flatten(children)
    }

    pub fn make_for_statement(
        &mut self,
        arg0: Node,
        arg1: Node,
        arg2: Node,
        arg3: Node,
        arg4: Node,
        arg5: Node,
        arg6: Node,
        arg7: Node,
        arg8: Node,
    ) -> (r: Node)
        ensures
            is_flatten_of(seq![arg0, arg1, arg2, arg3, arg4, arg5, arg6, arg7, arg8], r),
            final(self)@ == old(self)@,
    {
        let children = vec![arg0, arg1, arg2, arg3, arg4, arg5, arg6, arg7, arg8];
        assert(children@ =~= seq![arg0, arg1, arg2, arg3, arg4, arg5, arg6, arg7, arg8]);
        flatten(children)
    }

    pub fn make_foreach_statement(
        &mut self,
        arg0: Node,
        arg1: Node,
        arg2: Node,
        arg3: Node,
        arg4: Node,
        arg5: Node,
        arg6: Node,
        arg7: Node,
        arg8: Node,
        arg9: Node,
    ) -> (r: Node)
        ensures
            is_flatten_of(seq![arg0, arg1, arg2, arg3, arg4, arg5, arg6, arg7, arg8, arg9], r),
            final(self)@ == old(self)@,
    {
        let children = vec![arg0, arg1, arg2, arg3, arg4, arg5, arg6, arg7, arg8, arg9];
        assert(children@ =~= seq![arg0, arg1, arg2, arg3, arg4, arg5, arg6, arg7, arg8, arg9]);
        flatten(children)
    }

    pub fn make_switch_statement(
        &mut self,
        arg0: Node,
        arg1: Node,
        arg2: Node,
        arg3: Node,
        arg4: Node,
        arg5: Node,
        arg6: Node,
    ) -> (r: Node)
        ensures
            is_flatten_of(seq![arg0, arg1, arg2, arg3, arg4, arg5, arg6], r),
            final(self)@ == old(self)@,
    {
        let children = vec![arg0, arg1, arg2, arg3, arg4, arg5, arg6];
        assert(children@ =~= seq![arg0, arg1, arg2, arg3, arg4, arg5, arg6]);
        flatten(children)
    }

    pub fn make_switch_section(&mut self, arg0: Node, arg1: Node, arg2: Node) -> (r: Node)
        ensures
            is_flatten_of(seq![arg0, arg1, arg2], r),
            final(self)@ == old(self)@,
    {
        let children = vec![arg0, arg1, arg2];
        assert(children@ =~= seq![arg0, arg1, arg2]);
        flatten(children)
    }

    pub fn make_switch_fallthrough(&mut self, arg0: Node, arg1: Node) -> (r: Node)
        ensures
            is_flatten_of(seq![arg0, arg1], r),
            final(self)@ == old(self)@,
    {
        let children = vec![arg0, arg1];
        assert(children@ =~= seq![arg0, arg1]);
        flatten(children)
    }

    pub fn make_case_label(&mut self, arg0: Node, arg1: Node, arg2: Node) -> (r: Node)
        ensures
            is_flatten_of(seq![arg0, arg1, arg2], r),
            final(self)@ == old(self)@,
    {
        let children = vec![arg0, arg1, arg2];
        assert(children@ =~= seq![arg0, arg1, arg2]);
        flatten(children)
    }

    pub fn make_default_label(&mut self, arg0: Node, arg1: Node) -> (r: Node)
        ensures
            is_flatten_of(seq![arg0, arg1], r),
            final(self)@ == old(self)@,
    {
        let children = vec![arg0, arg1];
        assert(children@ =~= seq![arg0, arg1]);
        flatten(children)
    }

    pub fn make_return_statement(&mut self, arg0: Node, arg1: Node, arg2: Node) -> (r: Node)
        ensures
            is_flatten_of(seq![arg0, arg1, arg2], r),
            final(self)@ == old(self)@,
    {
        let children = vec![arg0, arg1, arg2];
        assert(children@ =~= seq![arg0, arg1, arg2]);
        flatten(children)
    }

    pub fn make_goto_label(&mut self, arg0: Node, arg1: Node) -> (r: Node)
        ensures
            is_flatten_of(seq![arg0, arg1], r),
            final(self)@ == old(self)@,
    {
        let children = vec![arg0, arg1];
        assert(children@ =~= seq![arg0, arg1]);
        flatten(children)
    }

    pub fn make_goto_statement(&mut self, arg0: Node, arg1: Node, arg2: Node) -> (r: Node)
        ensures
            is_flatten_of(seq![arg0, arg1, arg2], r),
            final(self)@ == old(self)@,
    {
        let children = vec![arg0, arg1, arg2];
        assert(children@ =~= seq![arg0, arg1, arg2]);
        flatten(children)
    }

    pub fn make_throw_statement(&mut self, arg0: Node, arg1: Node, arg2: Node) -> (r: Node)
        ensures
            is_flatten_of(seq![arg0, arg1, arg2], r),
            final(self)@ == old(self)@,
    {
        let children = vec![arg0, arg1, arg2];
        assert(children@ =~= seq![arg0, arg1, arg2]);
        flatten(children)
    }

    pub fn make_break_statement(&mut self, arg0: Node, arg1: Node, arg2: Node) -> (r: Node)
        ensures
            is_flatten_of(seq![arg0, arg1, arg2], r),
            final(self)@ == old(self)@,
    {
        let children = vec![arg0, arg1, arg2];
        assert(children@ =~= seq![arg0, arg1, arg2]);
        flatten(children)
    }

    pub fn make_continue_statement(&mut self, arg0: Node, arg1: Node, arg2: Node) -> (r: Node)
        ensures
            is_flatten_of(seq![arg0, arg1, arg2], r),
            final(self)@ == old(self)@,
    {
        let children = vec![arg0, arg1, arg2];
        assert(children@ =~= seq![arg0, arg1, arg2]);
        flatten(children)
    }

    pub fn make_echo_statement(&mut self, arg0: Node, arg1: Node, arg2: Node) -> (r: Node)
        ensures
            is_flatten_of(seq![arg0, arg1, arg2], r),
            final(self)@ == old(self)@,
    {
        let children = vec![arg0, arg1, arg2];
        assert(children@ =~= seq![arg0, arg1, arg2]);
        flatten(children)
    }

    pub fn make_concurrent_statement(&mut self, arg0: Node, arg1: Node) -> (r: Node)
        ensures
            is_flatten_of(seq![arg0, arg1], r),
            final(self)@ == old(self)@,
    {
        let children = vec![arg0, arg1];
        assert(children@ =~= seq![arg0, arg1]);
        flatten(children)
    }

    pub fn make_anonymous_class(
        &mut self,
        arg0: Node,
        arg1: Node,
        arg2: Node,
        arg3: Node,
        arg4: Node,
        arg5: Node,
        arg6: Node,
        arg7: Node,
        arg8: Node,
    ) -> (r: Node)
        ensures
            is_flatten_of(seq![arg0, arg1, arg2, arg3, arg4, arg5, arg6, arg7, arg8], r),
            final(self)@ == old(self)@,
    {
        let children = vec![arg0, arg1, arg2, arg3, arg4, arg5, arg6, arg7, arg8];
        assert(children@ =~= seq![arg0, arg1, arg2, arg3, arg4, arg5, arg6, arg7, arg8]);
        flatten(children)
    }

    pub fn make_anonymous_function(
        &mut self,
        arg0: Node,
        arg1: Node,
        arg2: Node,
        arg3: Node,
        arg4: Node,
        arg5: Node,
        arg6: Node,
        arg7: Node,
        arg8: Node,
        arg9: Node,
        arg10: Node,
        arg11: Node,
    ) -> (r: Node)
        ensures
            is_flatten_of(seq![arg0, arg1, arg2, arg3, arg4, arg5, arg6, arg7, arg8, arg9, arg10, arg11], r),
            final(self)@ == old(self)@,
    {
        let children = vec![arg0, arg1, arg2, arg3, arg4, arg5, arg6, arg7, arg8, arg9, arg10, arg11];
        assert(children@ =~= seq![arg0, arg1, arg2, arg3, arg4, arg5, arg6, arg7, arg8, arg9, arg10, arg11]);
        flatten(children)
    }

    pub fn make_anonymous_function_use_clause(
        &mut self,
        arg0: Node,
        arg1: Node,
        arg2: Node,
        arg3: Node,
    ) -> (r: Node)
        ensures
            is_flatten_of(seq![arg0, arg1, arg2, arg3], r),
            final(self)@ == old(self)@,
    {
        let children = vec![arg0, arg1, arg2, arg3];
        assert(children@ =~= seq![arg0, arg1, arg2, arg3]);
        flatten(children)
    }

    pub fn make_lambda_expression(
        &mut self,
        arg0: Node,
        arg1: Node,
        arg2: Node,
        arg3: Node,
        arg4: Node,
        arg5: Node,
    ) -> (r: Node)
        ensures
            is_flatten_of(seq![arg0, arg1, arg2, arg3, arg4, arg5], r),
            final(self)@ == old(self)@,
    {
        let children = vec![arg0, arg1, arg2, arg3, arg4, arg5];
        assert(children@ =~= seq![arg0, arg1, arg2, arg3, arg4, arg5]);
        flatten(children)
    }

    pub fn make_lambda_signature(
        &mut self,
        arg0: Node,
        arg1: Node,
        arg2: Node,
        arg3: Node,
        arg4: Node,
    ) -> (r: Node)
        ensures
            is_flatten_of(seq![arg0, arg1, arg2, arg3, arg4], r),
            final(self)@ == old(self)@,
    {
        let children = vec![arg0, arg1, arg2, arg3, arg4];
        assert(children@ =~= seq![arg0, arg1, arg2, arg3, arg4]);
        flatten(children)
    }

    pub fn make_cast_expression(
        &mut self,
        arg0: Node,
        arg1: Node,
        arg2: Node,
        arg3: Node,
    ) -> (r: Node)
        ensures
            is_flatten_of(seq![arg0, arg1, arg2, arg3], r),
            final(self)@ == old(self)@,
    {
        let children = vec![arg0, arg1, arg2, arg3];
        assert(children@ =~= seq![arg0, arg1, arg2, arg3]);
        flatten(children)
    }

    pub fn make_scope_resolution_expression(
        &mut self,
        arg0: Node,
        arg1: Node,
        arg2: Node,
    ) -> (r: Node)
        ensures
            is_flatten_of(seq![arg0, arg1, arg2], r),
            final(self)@ == old(self)@,
    {
        let children = vec![arg0, arg1, arg2];
        assert(children@ =~= seq![arg0, arg1, arg2]);
        flatten(children)
    }

    pub fn make_member_selection_expression(
        &mut self,
        arg0: Node,
        arg1: Node,
        arg2: Node,
    ) -> (r: Node)
        ensures
            is_flatten_of(seq![arg0, arg1, arg2], r),
            final(self)@ == old(self)@,
    {
        let children = vec![arg0, arg1, arg2];
        assert(children@ =~= seq![arg0, arg1, arg2]);
        flatten(children)
    }

    pub fn make_safe_member_selection_expression(
        &mut self,
        arg0: Node,
        arg1: Node,
        arg2: Node,
    ) -> (r: Node)
        ensures
            is_flatten_of(seq![arg0, arg1, arg2], r),
            final(self)@ == old(self)@,
    {
        let children = vec![arg0, arg1, arg2];
        assert(children@ =~= seq![arg0, arg1, arg2]);
        flatten(children)
    }

    pub fn make_embedded_member_selection_expression(
        &mut self,
        arg0: Node,
        arg1: Node,
        arg2: Node,
    ) -> (r: Node)
        ensures
            is_flatten_of(seq![arg0, arg1, arg2], r),
            final(self)@ == old(self)@,
    {
        let children = vec![arg0, arg1, arg2];
        assert(children@ =~= seq![arg0, arg1, arg2]);
        flatten(children)
    }

    pub fn make_yield_expression(&mut self, arg0: Node, arg1: Node) -> (r: Node)
        ensures
            is_flatten_of(seq![arg0, arg1], r),
            final(self)@ == old(self)@,
    {
        let children = vec![arg0, arg1];
        assert(children@ =~= seq![arg0, arg1]);
        flatten(children)
    }

    pub fn make_yield_from_expression(&mut self, arg0: Node, arg1: Node, arg2: Node) -> (r: Node)
        ensures
            is_flatten_of(seq![arg0, arg1, arg2], r),
            final(self)@ == old(self)@,
    {
        let children = vec![arg0, arg1, arg2];
        assert(children@ =~= seq![arg0, arg1, arg2]);
        flatten(children)
    }

    pub fn make_prefix_unary_expression(&mut self, arg0: Node, arg1: Node) -> (r: Node)
        ensures
            is_flatten_of(seq![arg0, arg1], r),
            final(self)@ == old(self)@,
    {
        let children = vec![arg0, arg1];
        assert(children@ =~= seq![arg0, arg1]);
        flatten(children)
    }

    pub fn make_postfix_unary_expression(&mut self, arg0: Node, arg1: Node) -> (r: Node)
        ensures
            is_flatten_of(seq![arg0, arg1], r),
            final(self)@ == old(self)@,
    {
        let children = vec![arg0, arg1];
        assert(children@ =~= seq![arg0, arg1]);
        flatten(children)
    }

    pub fn make_binary_expression(&mut self, arg0: Node, arg1: Node, arg2: Node) -> (r: Node)
        ensures
            is_flatten_of(seq![arg0, arg1, arg2], r),
            final(self)@ == old(self)@,
    {
        let children = vec![arg0, arg1, arg2];
        assert(children@ =~= seq![arg0, arg1, arg2]);
        flatten(children)
    }

    pub fn make_instanceof_expression(&mut self, arg0: Node, arg1: Node, arg2: Node) -> (r: Node)
        ensures
            is_flatten_of(seq![arg0, arg1, arg2], r),
            final(self)@ == old(self)@,
    {
        let children = vec![arg0, arg1, arg2];
        assert(children@ =~= seq![arg0, arg1, arg2]);
        flatten(children)
    }

    pub fn make_is_expression(&mut self, arg0: Node, arg1: Node, arg2: Node) -> (r: Node)
        ensures
            is_flatten_of(seq![arg0, arg1, arg2], r),
            final(self)@ == old(self)@,
    {
        let children = vec![arg0, arg1, arg2];
        assert(children@ =~= seq![arg0, arg1, arg2]);
        flatten(children)
    }

    pub fn make_as_expression(&mut self, arg0: Node, arg1: Node, arg2: Node) -> (r: Node)
        ensures
            is_flatten_of(seq![arg0, arg1, arg2], r),
            final(self)@ == old(self)@,
    {
        let children = vec![arg0, arg1, arg2];
        assert(children@ =~= seq![arg0, arg1, arg2]);
        flatten(children)
    }

    pub fn make_nullable_as_expression(&mut self, arg0: Node, arg1: Node, arg2: Node) -> (r: Node)
        ensures
            is_flatten_of(seq![arg0, arg1, arg2], r),
            final(self)@ == old(self)@,
    {
        let children = vec![arg0, arg1, arg2];
        assert(children@ =~= seq![arg0, arg1, arg2]);
        flatten(children)
    }

    pub fn make_conditional_expression(
        &mut self,
        arg0: Node,
        arg1: Node,
        arg2: Node,
        arg3: Node,
        arg4: Node,
    ) -> (r: Node)
        ensures
            is_flatten_of(seq![arg0, arg1, arg2, arg3, arg4], r),
            final(self)@ == old(self)@,
    {
        let children = vec![arg0, arg1, arg2, arg3, arg4];
        assert(children@ =~= seq![arg0, arg1, arg2, arg3, arg4]);
        flatten(children)
    }

    pub fn make_eval_expression(
        &mut self,
        arg0: Node,
        arg1: Node,
        arg2: Node,
        arg3: Node,
    ) -> (r: Node)
        ensures
            is_flatten_of(seq![arg0, arg1, arg2, arg3], r),
            final(self)@ == old(self)@,
    {
        let children = vec![arg0, arg1, arg2, arg3];
        assert(children@ =~= seq![arg0, arg1, arg2, arg3]);
        flatten(children)
    }

    pub fn make_define_expression(
        &mut self,
        arg0: Node,
        arg1: Node,
        arg2: Node,
        arg3: Node,
    ) -> (r: Node)
        ensures
            is_flatten_of(seq![arg0, arg1, arg2, arg3], r),
            final(self)@ == old(self)@,
    {
        let children = vec![arg0, arg1, arg2, arg3];
        assert(children@ =~= seq![arg0, arg1, arg2, arg3]);
        flatten(children)
    }

    pub fn make_halt_compiler_expression(
        &mut self,
        arg0: Node,
        arg1: Node,
        arg2: Node,
        arg3: Node,
    ) -> (r: Node)
        ensures
            is_flatten_of(seq![arg0, arg1, arg2, arg3], r),
            final(self)@ == old(self)@,
    {
        let children = vec![arg0, arg1, arg2, arg3];
        assert(children@ =~= seq![arg0, arg1, arg2, arg3]);
        flatten(children)
    }

    pub fn make_isset_expression(
        &mut self,
        arg0: Node,
        arg1: Node,
        arg2: Node,
        arg3: Node,
    ) -> (r: Node)
        ensures
            is_flatten_of(seq![arg0, arg1, arg2, arg3], r),
            final(self)@ == old(self)@,
    {
        let children = vec![arg0, arg1, arg2, arg3];
        assert(children@ =~= seq![arg0, arg1, arg2, arg3]);
        flatten(children)
    }

    pub fn make_function_call_expression(
        &mut self,
        arg0: Node,
        arg1: Node,
        arg2: Node,
        arg3: Node,
        arg4: Node,
    ) -> (r: Node)
        ensures
            is_flatten_of(seq![arg0, arg1, arg2, arg3, arg4], r),
            final(self)@ == old(self)@,
    {
        let children = vec![arg0, arg1, arg2, arg3, arg4];
        assert(children@ =~= seq![arg0, arg1, arg2, arg3, arg4]);
        flatten(children)
    }

    pub fn make_parenthesized_expression(&mut self, arg0: Node, arg1: Node, arg2: Node) -> (r: Node)
        ensures
            is_flatten_of(seq![arg0, arg1, arg2], r),
            final(self)@ == old(self)@,
    {
        let children = vec![arg0, arg1, arg2];
        assert(children@ =~= seq![arg0, arg1, arg2]);
        flatten(children)
    }

    pub fn make_braced_expression(&mut self, arg0: Node, arg1: Node, arg2: Node) -> (r: Node)
        ensures
            is_flatten_of(seq![arg0, arg1, arg2], r),
            final(self)@ == old(self)@,
    {
        let children = vec![arg0, arg1, arg2];
        assert(children@ =~= seq![arg0, arg1, arg2]);
        flatten(children)
    }

    pub fn make_embedded_braced_expression(
        &mut self,
        arg0: Node,
        arg1: Node,
        arg2: Node,
    ) -> (r: Node)
        ensures
            is_flatten_of(seq![arg0, arg1, arg2], r),
            final(self)@ == old(self)@,
    {
        let children = vec![arg0, arg1, arg2];
        assert(children@ =~= seq![arg0, arg1, arg2]);
        flatten(children)
    }

    pub fn make_list_expression(
        &mut self,
        arg0: Node,
        arg1: Node,
        arg2: Node,
        arg3: Node,
    ) -> (r: Node)
        ensures
            is_flatten_of(seq![arg0, arg1, arg2, arg3], r),
            final(self)@ == old(self)@,
    {
        let children = vec![arg0, arg1, arg2, arg3];
        assert(children@ =~= seq![arg0, arg1, arg2, arg3]);
        flatten(children)
    }

    pub fn make_collection_literal_expression(
        &mut self,
        arg0: Node,
        arg1: Node,
        arg2: Node,
        arg3: Node,
    ) -> (r: Node)
        ensures
            is_flatten_of(seq![arg0, arg1, arg2, arg3], r),
            final(self)@ == old(self)@,
    {
        let children = vec![arg0, arg1, arg2, arg3];
        assert(children@ =~= seq![arg0, arg1, arg2, arg3]);
        flatten(children)
    }

    pub fn make_object_creation_expression(&mut self, arg0: Node, arg1: Node) -> (r: Node)
        ensures
            is_flatten_of(seq![arg0, arg1], r),
            final(self)@ == old(self)@,
    {
        let children = vec![arg0, arg1];
        assert(children@ =~= seq![arg0, arg1]);
        flatten(children)
    }

    pub fn make_constructor_call(
        &mut self,
        arg0: Node,
        arg1: Node,
        arg2: Node,
        arg3: Node,
    ) -> (r: Node)
        ensures
            is_flatten_of(seq![arg0, arg1, arg2, arg3], r),
            final(self)@ == old(self)@,
    {
        let children = vec![arg0, arg1, arg2, arg3];
        assert(children@ =~= seq![arg0, arg1, arg2, arg3]);
        flatten(children)
    }

    pub fn make_record_creation_expression(
        &mut self,
        arg0: Node,
        arg1: Node,
        arg2: Node,
        arg3: Node,
    ) -> (r: Node)
        ensures
            is_flatten_of(seq![arg0, arg1, arg2, arg3], r),
            final(self)@ == old(self)@,
    {
        let children = vec![arg0, arg1, arg2, arg3];
        assert(children@ =~= seq![arg0, arg1, arg2, arg3]);
        flatten(children)
    }

    pub fn make_array_creation_expression(
        &mut self,
        arg0: Node,
        arg1: Node,
        arg2: Node,
    ) -> (r: Node)
        ensures
            is_flatten_of(seq![arg0, arg1, arg2], r),
            final(self)@ == old(self)@,
    {
        let children = vec![arg0, arg1, arg2];
        assert(children@ =~= seq![arg0, arg1, arg2]);
        flatten(children)
    }

    pub fn make_array_intrinsic_expression(
        &mut self,
        arg0: Node,
        arg1: Node,
        arg2: Node,
        arg3: Node,
    ) -> (r: Node)
        ensures
            is_flatten_of(seq![arg0, arg1, arg2, arg3], r),
            final(self)@ == old(self)@,
    {
        let children = vec![arg0, arg1, arg2, arg3];
        assert(children@ =~= seq![arg0, arg1, arg2, arg3]);
        flatten(children)
    }

    pub fn make_darray_intrinsic_expression(
        &mut self,
        arg0: Node,
        arg1: Node,
        arg2: Node,
        arg3: Node,
        arg4: Node,
    ) -> (r: Node)
        ensures
            is_flatten_of(seq![arg0, arg1, arg2, arg3, arg4], r),
            final(self)@ == old(self)@,
    {
        let children = vec![arg0, arg1, arg2, arg3, arg4];
        assert(children@ =~= seq![arg0, arg1, arg2, arg3, arg4]);
        flatten(children)
    }

    pub fn make_dictionary_intrinsic_expression(
        &mut self,
        arg0: Node,
        arg1: Node,
        arg2: Node,
        arg3: Node,
        arg4: Node,
    ) -> (r: Node)
        ensures
            is_flatten_of(seq![arg0, arg1, arg2, arg3, arg4], r),
            final(self)@ == old(self)@,
    {
        let children = vec![arg0, arg1, arg2, arg3, arg4];
        assert(children@ =~= seq![arg0, arg1, arg2, arg3, arg4]);
        flatten(children)
    }

    pub fn make_keyset_intrinsic_expression(
        &mut self,
        arg0: Node,
        arg1: Node,
        arg2: Node,
        arg3: Node,
        arg4: Node,
    ) -> (r: Node)
        ensures
            is_flatten_of(seq![arg0, arg1, arg2, arg3, arg4], r),
            final(self)@ == old(self)@,
    {
        let children = vec![arg0, arg1, arg2, arg3, arg4];
        assert(children@ =~= seq![arg0, arg1, arg2, arg3, arg4]);
        flatten(children)
    }

    pub fn make_varray_intrinsic_expression(
        &mut self,
        arg0: Node,
        arg1: Node,
        arg2: Node,
        arg3: Node,
        arg4: Node,
    ) -> (r: Node)
        ensures
            is_flatten_of(seq![arg0, arg1, arg2, arg3, arg4], r),
            final(self)@ == old(self)@,
    {
        let children = vec![arg0, arg1, arg2, arg3, arg4];
        assert(children@ =~= seq![arg0, arg1, arg2, arg3, arg4]);
        flatten(children)
    }

    pub fn make_vector_intrinsic_expression(
        &mut self,
        arg0: Node,
        arg1: Node,
        arg2: Node,
        arg3: Node,
        arg4: Node,
    ) -> (r: Node)
        ensures
            is_flatten_of(seq![arg0, arg1, arg2, arg3, arg4], r),
            final(self)@ == old(self)@,
    {
        let children = vec![arg0, arg1, arg2, arg3, arg4];
        assert(children@ =~= seq![arg0, arg1, arg2, arg3, arg4]);
        flatten(children)
    }

    pub fn make_element_initializer(&mut self, arg0: Node, arg1: Node, arg2: Node) -> (r: Node)
        ensures
            is_flatten_of(seq![arg0, arg1, arg2], r),
            final(self)@ == old(self)@,
    {
        let children = vec![arg0, arg1, arg2];
        assert(children@ =~= seq![arg0, arg1, arg2]);
        flatten(children)
    }

    pub fn make_subscript_expression(
        &mut self,
        arg0: Node,
        arg1: Node,
        arg2: Node,
        arg3: Node,
    ) -> (r: Node)
        ensures
            is_flatten_of(seq![arg0, arg1, arg2, arg3], r),
            final(self)@ == old(self)@,
    {
        let children = vec![arg0, arg1, arg2, arg3];
        assert(children@ =~= seq![arg0, arg1, arg2, arg3]);
        flatten(children)
    }

    pub fn make_embedded_subscript_expression(
        &mut self,
        arg0: Node,
        arg1: Node,
        arg2: Node,
        arg3: Node,
    ) -> (r: Node)
        ensures
            is_flatten_of(seq![arg0, arg1, arg2, arg3], r),
            final(self)@ == old(self)@,
    {
        let children = vec![arg0, arg1, arg2, arg3];
        assert(children@ =~= seq![arg0, arg1, arg2, arg3]);
        flatten(children)
    }

    pub fn make_awaitable_creation_expression(
        &mut self,
        arg0: Node,
        arg1: Node,
        arg2: Node,
        arg3: Node,
    ) -> (r: Node)
        ensures
            is_flatten_of(seq![arg0, arg1, arg2, arg3], r),
            final(self)@ == old(self)@,
    {
        let children = vec![arg0, arg1, arg2, arg3];
        assert(children@ =~= seq![arg0, arg1, arg2, arg3]);
        flatten(children)
    }

    pub fn make_xhp_children_declaration(&mut self, arg0: Node, arg1: Node, arg2: Node) -> (r: Node)
        ensures
            is_flatten_of(seq![arg0, arg1, arg2], r),
            final(self)@ == old(self)@,
    {
        let children = vec![arg0, arg1, arg2];
        assert(children@ =~= seq![arg0, arg1, arg2]);
        flatten(children)
    }

    pub fn make_xhp_children_parenthesized_list(
        &mut self,
        arg0: Node,
        arg1: Node,
        arg2: Node,
    ) -> (r: Node)
        ensures
            is_flatten_of(seq![arg0, arg1, arg2], r),
            final(self)@ == old(self)@,
    {
        let children = vec![arg0, arg1, arg2];
        assert(children@ =~= seq![arg0, arg1, arg2]);
        flatten(children)
    }

    pub fn make_xhp_category_declaration(&mut self, arg0: Node, arg1: Node, arg2: Node) -> (r: Node)
        ensures
            is_flatten_of(seq![arg0, arg1, arg2], r),
            final(self)@ == old(self)@,
    {
        let children = vec![arg0, arg1, arg2];
        assert(children@ =~= seq![arg0, arg1, arg2]);
        flatten(children)
    }

    pub fn make_xhp_enum_type(
        &mut self,
        arg0: Node,
        arg1: Node,
        arg2: Node,
        arg3: Node,
        arg4: Node,
    ) -> (r: Node)
        ensures
            is_flatten_of(seq![arg0, arg1, arg2, arg3, arg4], r),
            final(self)@ == old(self)@,
    {
        let children = vec![arg0, arg1, arg2, arg3, arg4];
        assert(children@ =~= seq![arg0, arg1, arg2, arg3, arg4]);
        flatten(children)
    }

    pub fn make_xhp_lateinit(&mut self, arg0: Node, arg1: Node) -> (r: Node)
        ensures
            is_flatten_of(seq![arg0, arg1], r),
            final(self)@ == old(self)@,
    {
        let children = vec![arg0, arg1];
        assert(children@ =~= seq![arg0, arg1]);
        flatten(children)
    }

    pub fn make_xhp_required(&mut self, arg0: Node, arg1: Node) -> (r: Node)
        ensures
            is_flatten_of(seq![arg0, arg1], r),
            final(self)@ == old(self)@,
    {
        let children = vec![arg0, arg1];
        assert(children@ =~= seq![arg0, arg1]);
        flatten(children)
    }

    pub fn make_xhp_class_attribute_declaration(
        &mut self,
        arg0: Node,
        arg1: Node,
        arg2: Node,
    ) -> (r: Node)
        ensures
            is_flatten_of(seq![arg0, arg1, arg2], r),
            final(self)@ == old(self)@,
    {
        let children = vec![arg0, arg1, arg2];
        assert(children@ =~= seq![arg0, arg1, arg2]);
        flatten(children)
    }

    pub fn make_xhp_class_attribute(
        &mut self,
        arg0: Node,
        arg1: Node,
        arg2: Node,
        arg3: Node,
    ) -> (r: Node)
        ensures
            is_flatten_of(seq![arg0, arg1, arg2, arg3], r),
            final(self)@ == old(self)@,
    {
        let children = vec![arg0, arg1, arg2, arg3];
        assert(children@ =~= seq![arg0, arg1, arg2, arg3]);
        flatten(children)
    }

    pub fn make_xhp_simple_class_attribute(&mut self, arg0: Node) -> (r: Node)
        ensures
            is_flatten_of(seq![arg0], r),
            final(self)@ == old(self)@,
    {
        let children = vec![arg0];
        assert(children@ =~= seq![arg0]);
        flatten(children)
    }

    pub fn make_xhp_simple_attribute(&mut self, arg0: Node, arg1: Node, arg2: Node) -> (r: Node)
        ensures
            is_flatten_of(seq![arg0, arg1, arg2], r),
            final(self)@ == old(self)@,
    {
        let children = vec![arg0, arg1, arg2];
        assert(children@ =~= seq![arg0, arg1, arg2]);
        flatten(children)
    }

    pub fn make_xhp_spread_attribute(
        &mut self,
        arg0: Node,
        arg1: Node,
        arg2: Node,
        arg3: Node,
    ) -> (r: Node)
        ensures
            is_flatten_of(seq![arg0, arg1, arg2, arg3], r),
            final(self)@ == old(self)@,
    {
        let children = vec![arg0, arg1, arg2, arg3];
        assert(children@ =~= seq![arg0, arg1, arg2, arg3]);
        flatten(children)
    }

    pub fn make_xhp_open(&mut self, arg0: Node, arg1: Node, arg2: Node, arg3: Node) -> (r: Node)
        ensures
            is_flatten_of(seq![arg0, arg1, arg2, arg3], r),
            final(self)@ == old(self)@,
    {
        let children = vec![arg0, arg1, arg2, arg3];
        assert(children@ =~= seq![arg0, arg1, arg2, arg3]);
        flatten(children)
    }

    pub fn make_xhp_expression(&mut self, arg0: Node, arg1: Node, arg2: Node) -> (r: Node)
        ensures
            is_flatten_of(seq![arg0, arg1, arg2], r),
            final(self)@ == old(self)@,
    {
        let children = vec![arg0, arg1, arg2];
        assert(children@ =~= seq![arg0, arg1, arg2]);
        flatten(children)
    }

    pub fn make_xhp_close(&mut self, arg0: Node, arg1: Node, arg2: Node) -> (r: Node)
        ensures
            is_flatten_of(seq![arg0, arg1, arg2], r),
            final(self)@ == old(self)@,
    {
        let children = vec![arg0, arg1, arg2];
        assert(children@ =~= seq![arg0, arg1, arg2]);
        flatten(children)
    }

    pub fn make_type_constant(&mut self, arg0: Node, arg1: Node, arg2: Node) -> (r: Node)
        ensures
            is_flatten_of(seq![arg0, arg1, arg2], r),
            final(self)@ == old(self)@,
    {
        let children = vec![arg0, arg1, arg2];
        assert(children@ =~= seq![arg0, arg1, arg2]);
        flatten(children)
    }

    pub fn make_vector_type_specifier(
        &mut self,
        arg0: Node,
        arg1: Node,
        arg2: Node,
        arg3: Node,
        arg4: Node,
    ) -> (r: Node)
        ensures
            is_flatten_of(seq![arg0, arg1, arg2, arg3, arg4], r),
            final(self)@ == old(self)@,
    {
        let children = vec![arg0, arg1, arg2, arg3, arg4];
        assert(children@ =~= seq![arg0, arg1, arg2, arg3, arg4]);
        flatten(children)
    }

    pub fn make_keyset_type_specifier(
        &mut self,
        arg0: Node,
        arg1: Node,
        arg2: Node,
        arg3: Node,
        arg4: Node,
    ) -> (r: Node)
        ensures
            is_flatten_of(seq![arg0, arg1, arg2, arg3, arg4], r),
            final(self)@ == old(self)@,
    {
        let children = vec![arg0, arg1, arg2, arg3, arg4];
        assert(children@ =~= seq![arg0, arg1, arg2, arg3, arg4]);
        flatten(children)
    }

    pub fn make_tuple_type_explicit_specifier(
        &mut self,
        arg0: Node,
        arg1: Node,
        arg2: Node,
        arg3: Node,
    ) -> (r: Node)
        ensures
            is_flatten_of(seq![arg0, arg1, arg2, arg3], r),
            final(self)@ == old(self)@,
    {
        let children = vec![arg0, arg1, arg2, arg3];
        assert(children@ =~= seq![arg0, arg1, arg2, arg3]);
        flatten(children)
    }

    pub fn make_varray_type_specifier(
        &mut self,
        arg0: Node,
        arg1: Node,
        arg2: Node,
        arg3: Node,
        arg4: Node,
    ) -> (r: Node)
        ensures
            is_flatten_of(seq![arg0, arg1, arg2, arg3, arg4], r),
            final(self)@ == old(self)@,
    {
        let children = vec![arg0, arg1, arg2, arg3, arg4];
        assert(children@ =~= seq![arg0, arg1, arg2, arg3, arg4]);
        flatten(children)
    }

    pub fn make_vector_array_type_specifier(
        &mut self,
        arg0: Node,
        arg1: Node,
        arg2: Node,
        arg3: Node,
    ) -> (r: Node)
        ensures
            is_flatten_of(seq![arg0, arg1, arg2, arg3], r),
            final(self)@ == old(self)@,
    {
        let children = vec![arg0, arg1, arg2, arg3];
        assert(children@ =~= seq![arg0, arg1, arg2, arg3]);
        flatten(children)
    }

    pub fn make_darray_type_specifier(
        &mut self,
        arg0: Node,
        arg1: Node,
        arg2: Node,
        arg3: Node,
        arg4: Node,
        arg5: Node,
        arg6: Node,
    ) -> (r: Node)
        ensures
            is_flatten_of(seq![arg0, arg1, arg2, arg3, arg4, arg5, arg6], r),
            final(self)@ == old(self)@,
    {
        let children = vec![arg0, arg1, arg2, arg3, arg4, arg5, arg6];
        assert(children@ =~= seq![arg0, arg1, arg2, arg3, arg4, arg5, arg6]);
        flatten(children)
    }

    pub fn make_map_array_type_specifier(
        &mut self,
        arg0: Node,
        arg1: Node,
        arg2: Node,
        arg3: Node,
        arg4: Node,
        arg5: Node,
    ) -> (r: Node)
        ensures
            is_flatten_of(seq![arg0, arg1, arg2, arg3, arg4, arg5], r),
            final(self)@ == old(self)@,
    {
        let children = vec![arg0, arg1, arg2, arg3, arg4, arg5];
        assert(children@ =~= seq![arg0, arg1, arg2, arg3, arg4, arg5]);
        flatten(children)
    }

    pub fn make_dictionary_type_specifier(
        &mut self,
        arg0: Node,
        arg1: Node,
        arg2: Node,
        arg3: Node,
    ) -> (r: Node)
        ensures
            is_flatten_of(seq![arg0, arg1, arg2, arg3], r),
            final(self)@ == old(self)@,
    {
        let children = vec![arg0, arg1, arg2, arg3];
        assert(children@ =~= seq![arg0, arg1, arg2, arg3]);
        flatten(children)
    }

    pub fn make_closure_type_specifier(
        &mut self,
        arg0: Node,
        arg1: Node,
        arg2: Node,
        arg3: Node,
        arg4: Node,
        arg5: Node,
        arg6: Node,
        arg7: Node,
        arg8: Node,
    ) -> (r: Node)
        ensures
            is_flatten_of(seq![arg0, arg1, arg2, arg3, arg4, arg5, arg6, arg7, arg8], r),
            final(self)@ == old(self)@,
    {
        let children = vec![arg0, arg1, arg2, arg3, arg4, arg5, arg6, arg7, arg8];
        assert(children@ =~= seq![arg0, arg1, arg2, arg3, arg4, arg5, arg6, arg7, arg8]);
        flatten(children)
    }

    pub fn make_closure_parameter_type_specifier(&mut self, arg0: Node, arg1: Node) -> (r: Node)
        ensures
            is_flatten_of(seq![arg0, arg1], r),
            final(self)@ == old(self)@,
    {
        let children = vec![arg0, arg1];
        assert(children@ =~= seq![arg0, arg1]);
        flatten(children)
    }

    pub fn make_classname_type_specifier(
        &mut self,
        arg0: Node,
        arg1: Node,
        arg2: Node,
        arg3: Node,
        arg4: Node,
    ) -> (r: Node)
        ensures
            is_flatten_of(seq![arg0, arg1, arg2, arg3, arg4], r),
            final(self)@ == old(self)@,
    {
        let children = vec![arg0, arg1, arg2, arg3, arg4];
        assert(children@ =~= seq![arg0, arg1, arg2, arg3, arg4]);
        flatten(children)
    }

    pub fn make_field_specifier(
        &mut self,
        arg0: Node,
        arg1: Node,
        arg2: Node,
        arg3: Node,
    ) -> (r: Node)
        ensures
            is_flatten_of(seq![arg0, arg1, arg2, arg3], r),
            final(self)@ == old(self)@,
    {
        let children = vec![arg0, arg1, arg2, arg3];
        assert(children@ =~= seq![arg0, arg1, arg2, arg3]);
        flatten(children)
    }

    pub fn make_field_initializer(&mut self, arg0: Node, arg1: Node, arg2: Node) -> (r: Node)
        ensures
            is_flatten_of(seq![arg0, arg1, arg2], r),
            final(self)@ == old(self)@,
    {
        let children = vec![arg0, arg1, arg2];
        assert(children@ =~= seq![arg0, arg1, arg2]);
        flatten(children)
    }

    pub fn make_shape_type_specifier(
        &mut self,
        arg0: Node,
        arg1: Node,
        arg2: Node,
        arg3: Node,
        arg4: Node,
    ) -> (r: Node)
        ensures
            is_flatten_of(seq![arg0, arg1, arg2, arg3, arg4], r),
            final(self)@ == old(self)@,
    {
        let children = vec![arg0, arg1, arg2, arg3, arg4];
        assert(children@ =~= seq![arg0, arg1, arg2, arg3, arg4]);
        flatten(children)
    }

    pub fn make_shape_expression(
        &mut self,
        arg0: Node,
        arg1: Node,
        arg2: Node,
        arg3: Node,
    ) -> (r: Node)
        ensures
            is_flatten_of(seq![arg0, arg1, arg2, arg3], r),
            final(self)@ == old(self)@,
    {
        let children = vec![arg0, arg1, arg2, arg3];
        assert(children@ =~= seq![arg0, arg1, arg2, arg3]);
        flatten(children)
    }

    pub fn make_tuple_expression(
        &mut self,
        arg0: Node,
        arg1: Node,
        arg2: Node,
        arg3: Node,
    ) -> (r: Node)
        ensures
            is_flatten_of(seq![arg0, arg1, arg2, arg3], r),
            final(self)@ == old(self)@,
    {
        let children = vec![arg0, arg1, arg2, arg3];
        assert(children@ =~= seq![arg0, arg1, arg2, arg3]);
        flatten(children)
    }

    pub fn make_nullable_type_specifier(&mut self, arg0: Node, arg1: Node) -> (r: Node)
        ensures
            is_flatten_of(seq![arg0, arg1], r),
            final(self)@ == old(self)@,
    {
        let children = vec![arg0, arg1];
        assert(children@ =~= seq![arg0, arg1]);
        flatten(children)
    }

    pub fn make_like_type_specifier(&mut self, arg0: Node, arg1: Node) -> (r: Node)
        ensures
            is_flatten_of(seq![arg0, arg1], r),
            final(self)@ == old(self)@,
    {
        let children = vec![arg0, arg1];
        assert(children@ =~= seq![arg0, arg1]);
        flatten(children)
    }

    pub fn make_soft_type_specifier(&mut self, arg0: Node, arg1: Node) -> (r: Node)
        ensures
            is_flatten_of(seq![arg0, arg1], r),
            final(self)@ == old(self)@,
    {
        let children = vec![arg0, arg1];
        assert(children@ =~= seq![arg0, arg1]);
        flatten(children)
    }

    pub fn make_reified_type_argument(&mut self, arg0: Node, arg1: Node) -> (r: Node)
        ensures
            is_flatten_of(seq![arg0, arg1], r),
            final(self)@ == old(self)@,
    {
        let children = vec![arg0, arg1];
        assert(children@ =~= seq![arg0, arg1]);
        flatten(children)
    }

    pub fn make_tuple_type_specifier(&mut self, arg0: Node, arg1: Node, arg2: Node) -> (r: Node)
        ensures
            is_flatten_of(seq![arg0, arg1, arg2], r),
            final(self)@ == old(self)@,
    {
        let children = vec![arg0, arg1, arg2];
        assert(children@ =~= seq![arg0, arg1, arg2]);
        flatten(children)
    }

    pub fn make_error(&mut self, arg0: Node) -> (r: Node)
        ensures
            is_flatten_of(seq![arg0], r),
            final(self)@ == old(self)@,
    {
        let children = vec![arg0];
        assert(children@ =~= seq![arg0]);
        flatten(children)
    }

    pub fn make_pocket_atom_expression(&mut self, arg0: Node, arg1: Node) -> (r: Node)
        ensures
            is_flatten_of(seq![arg0, arg1], r),
            final(self)@ == old(self)@,
    {
        let children = vec![arg0, arg1];
        assert(children@ =~= seq![arg0, arg1]);
        flatten(children)
    }

    pub fn make_pocket_identifier_expression(
        &mut self,
        arg0: Node,
        arg1: Node,
        arg2: Node,
        arg3: Node,
        arg4: Node,
    ) -> (r: Node)
        ensures
            is_flatten_of(seq![arg0, arg1, arg2, arg3, arg4], r),
            final(self)@ == old(self)@,
    {
        let children = vec![arg0, arg1, arg2, arg3, arg4];
        assert(children@ =~= seq![arg0, arg1, arg2, arg3, arg4]);
        flatten(children)
    }

    pub fn make_pocket_atom_mapping_declaration(
        &mut self,
        arg0: Node,
        arg1: Node,
        arg2: Node,
        arg3: Node,
        arg4: Node,
        arg5: Node,
    ) -> (r: Node)
        ensures
            is_flatten_of(seq![arg0, arg1, arg2, arg3, arg4, arg5], r),
            final(self)@ == old(self)@,
    {
        let children = vec![arg0, arg1, arg2, arg3, arg4, arg5];
        assert(children@ =~= seq![arg0, arg1, arg2, arg3, arg4, arg5]);
        flatten(children)
    }

    pub fn make_pocket_enum_declaration(
        &mut self,
        arg0: Node,
        arg1: Node,
        arg2: Node,
        arg3: Node,
        arg4: Node,
        arg5: Node,
    ) -> (r: Node)
        ensures
            is_flatten_of(seq![arg0, arg1, arg2, arg3, arg4, arg5], r),
            final(self)@ == old(self)@,
    {
        let children = vec![arg0, arg1, arg2, arg3, arg4, arg5];
        assert(children@ =~= seq![arg0, arg1, arg2, arg3, arg4, arg5]);
        flatten(children)
    }

    pub fn make_pocket_field_type_expr_declaration(
        &mut self,
        arg0: Node,
        arg1: Node,
        arg2: Node,
        arg3: Node,
    ) -> (r: Node)
        ensures
            is_flatten_of(seq![arg0, arg1, arg2, arg3], r),
            final(self)@ == old(self)@,
    {
        let children = vec![arg0, arg1, arg2, arg3];
        assert(children@ =~= seq![arg0, arg1, arg2, arg3]);
        flatten(children)
    }

    pub fn make_pocket_field_type_declaration(
        &mut self,
        arg0: Node,
        arg1: Node,
        arg2: Node,
        arg3: Node,
    ) -> (r: Node)
        ensures
            is_flatten_of(seq![arg0, arg1, arg2, arg3], r),
            final(self)@ == old(self)@,
    {
        let children = vec![arg0, arg1, arg2, arg3];
        assert(children@ =~= seq![arg0, arg1, arg2, arg3]);
        flatten(children)
    }

    pub fn make_pocket_mapping_id_declaration(&mut self, arg0: Node, arg1: Node) -> (r: Node)
        ensures
            is_flatten_of(seq![arg0, arg1], r),
            final(self)@ == old(self)@,
    {
        let children = vec![arg0, arg1];
        assert(children@ =~= seq![arg0, arg1]);
        flatten(children)
    }

    pub fn make_pocket_mapping_type_declaration(
        &mut self,
        arg0: Node,
        arg1: Node,
        arg2: Node,
        arg3: Node,
    ) -> (r: Node)
        ensures
            is_flatten_of(seq![arg0, arg1, arg2, arg3], r),
            final(self)@ == old(self)@,
    {
        let children = vec![arg0, arg1, arg2, arg3];
        assert(children@ =~= seq![arg0, arg1, arg2, arg3]);
        flatten(children)
    }
}

} // verus!

# wcore

A verified library: the per-model output-token ceiling table, the construction
of shell-string and argv-mode commands (always with kill-on-drop), and the grep
tool's request handling, search command lines and result texts. `src/` is the
verified library; `app/` runs the commands asynchronously, adapts the grep tool
to a JSON-input tool trait, and routes consent doorbells per task.
